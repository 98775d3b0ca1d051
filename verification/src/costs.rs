//! The witness cost table: per-unit byte costs of each witness category under
//! each scheme, and the network parameters that bound one slot.

use vstd::prelude::*;

verus! {

/// Bytes to prove one account under a Merkle Patricia Trie.
pub const MERKLE_ACCOUNT_WITNESS: usize = 3_000;

/// Bytes to prove one account under a Verkle tree.
pub const VERKLE_ACCOUNT_WITNESS: usize = 200;

/// Bytes to prove one storage slot under a Merkle Patricia Trie.
pub const MERKLE_STORAGE_WITNESS: usize = 3_000;

/// Bytes to prove one storage slot under a Verkle tree.
pub const VERKLE_STORAGE_WITNESS: usize = 200;

/// Bytes to prove contract code under a Merkle Patricia Trie.
pub const MERKLE_CODE_CHUNK: usize = 24_200;

/// Bytes to prove one code chunk under a Verkle tree.
pub const VERKLE_CODE_CHUNK: usize = 200;

/// Fixed slot duration in seconds.
pub const BLOCK_TIME_SECONDS: u64 = 12;

/// Assumed available bandwidth in megabits per second.
pub const NETWORK_BANDWIDTH_MBPS: u64 = 10;

/// Per-unit witness byte costs for each (scheme, category) pair, with the
/// network parameters used to compute a slot's byte budget. Constructed once
/// and never mutated.
#[derive(Clone, Copy, Debug)]
pub struct WitnessCostTable {
    pub merkle_account_witness: usize,
    pub verkle_account_witness: usize,
    pub merkle_storage_witness: usize,
    pub verkle_storage_witness: usize,
    pub merkle_code_chunk: usize,
    pub verkle_code_chunk: usize,
    pub block_time_seconds: u64,
    pub network_bandwidth_mbps: u64,
}

impl WitnessCostTable {
    /// Every byte cost is positive and no Verkle cost exceeds its Merkle
    /// counterpart (the comparison's premise); the network parameters are
    /// positive and small enough that the slot budget fits the machine.
    pub open spec fn wf(self) -> bool {
        &&& 0 < self.verkle_account_witness <= self.merkle_account_witness
        &&& 0 < self.verkle_storage_witness <= self.merkle_storage_witness
        &&& 0 < self.verkle_code_chunk <= self.merkle_code_chunk
        &&& 0 < self.block_time_seconds
        &&& 0 < self.network_bandwidth_mbps
        &&& self.network_bandwidth_mbps * 1_000_000 * self.block_time_seconds <= u64::MAX
    }

    /// The greatest byte count transferable within one slot:
    /// `floor(bandwidth_mbps * 1_000_000 * slot_seconds / 8)`.
    pub open spec fn spec_slot_byte_budget(self) -> int {
        self.network_bandwidth_mbps * 1_000_000 * self.block_time_seconds / 8
    }

    /// Computes the slot byte budget from the network parameters.
    pub fn slot_byte_budget(&self) -> (budget: u64)
        requires
            self.wf(),
        ensures
            budget == self.spec_slot_byte_budget(),
    {
        proof {
            assert(self.network_bandwidth_mbps * 1_000_000
                <= self.network_bandwidth_mbps * 1_000_000 * self.block_time_seconds)
                by (nonlinear_arith)
                requires 0 < self.block_time_seconds;
        }
        self.network_bandwidth_mbps * 1_000_000 * self.block_time_seconds / 8
    }

    /// The reference table, with cost estimates drawn from Ethereum research.
    pub fn reference() -> (t: WitnessCostTable)
        ensures
            t.wf(),
            t.merkle_account_witness == MERKLE_ACCOUNT_WITNESS,
            t.verkle_account_witness == VERKLE_ACCOUNT_WITNESS,
            t.merkle_storage_witness == MERKLE_STORAGE_WITNESS,
            t.verkle_storage_witness == VERKLE_STORAGE_WITNESS,
            t.merkle_code_chunk == MERKLE_CODE_CHUNK,
            t.verkle_code_chunk == VERKLE_CODE_CHUNK,
            t.block_time_seconds == BLOCK_TIME_SECONDS,
            t.network_bandwidth_mbps == NETWORK_BANDWIDTH_MBPS,
    {
        WitnessCostTable {
            merkle_account_witness: MERKLE_ACCOUNT_WITNESS,
            verkle_account_witness: VERKLE_ACCOUNT_WITNESS,
            merkle_storage_witness: MERKLE_STORAGE_WITNESS,
            verkle_storage_witness: VERKLE_STORAGE_WITNESS,
            merkle_code_chunk: MERKLE_CODE_CHUNK,
            verkle_code_chunk: VERKLE_CODE_CHUNK,
            block_time_seconds: BLOCK_TIME_SECONDS,
            network_bandwidth_mbps: NETWORK_BANDWIDTH_MBPS,
        }
    }
}

/// A witness of `size` bytes can be propagated within one slot under `table`'s
/// network parameters.
pub open spec fn fits_in_slot(size: nat, table: WitnessCostTable) -> bool {
    size <= table.spec_slot_byte_budget()
}

/// Slot fit is monotonic: whatever is no larger than something that fits in
/// the slot fits in the slot itself.
pub proof fn lemma_fits_in_slot_monotonic(a: nat, b: nat, table: WitnessCostTable)
    requires
        a <= b,
        fits_in_slot(b, table),
    ensures
        fits_in_slot(a, table),
{
}

} // verus!
