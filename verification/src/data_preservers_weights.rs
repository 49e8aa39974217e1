//! Weights of the data-preservers pallet's calls.
use crate::weight::{
    rocks_db_weight, rocks_db_weight_spec, sat_add, sat_mul, RuntimeDbWeight, Weight,
};
use vstd::prelude::*;

verus! {

/// Reference time of `set_boot_nodes` with `x` and `y` as its benchmark
/// components, under database costs `db`.
pub open spec fn set_boot_nodes_ref_time(db: RuntimeDbWeight, x: u32, y: u32) -> u64 {
    let base = sat_add(10_366_234, sat_mul(5_398, x as int) as int);
    let with_y = sat_add(base as int, sat_mul(354_995, y as int) as int);
    let with_read = sat_add(with_y as int, sat_mul(db.read as int, 1) as int);
    sat_add(with_read as int, sat_mul(db.write as int, 1) as int)
}

/// Weight functions of the pallet's calls.
pub trait WeightInfo {
    fn set_boot_nodes(&self, x: u32, y: u32) -> Weight;

    fn force_assignment(&self) -> Weight;
}

/// Benchmarked weights under the runtime's database costs.
#[derive(Clone, Copy, Debug)]
pub struct SubstrateWeight {
    pub db_weight: RuntimeDbWeight,
}

impl WeightInfo for SubstrateWeight {
    fn set_boot_nodes(&self, x: u32, y: u32) -> (w: Weight)
        ensures
            w.spec_ref_time() == set_boot_nodes_ref_time(self.db_weight, x, y),
            w.spec_proof_size() == 3660,
    {
        let db = self.db_weight;
        Weight::from_parts(10_366_234, 3660).saturating_add(
            Weight::from_parts(5_398, 0).saturating_mul(x as u64),
        ).saturating_add(Weight::from_parts(354_995, 0).saturating_mul(y as u64)).saturating_add(
            db.reads(1),
        ).saturating_add(db.writes(1))
    }

    fn force_assignment(&self) -> (w: Weight)
        ensures
            w.spec_ref_time() == sat_add(5_683_000, sat_mul(self.db_weight.write as int, 1) as int),
            w.spec_proof_size() == 0,
    {
        let db = self.db_weight;
        Weight::from_parts(5_683_000, 0).saturating_add(db.writes(1))
    }
}

/// Benchmarked weights under RocksDB database costs.
impl WeightInfo for () {
    fn set_boot_nodes(&self, x: u32, y: u32) -> (w: Weight)
        ensures
            w.spec_ref_time() == set_boot_nodes_ref_time(rocks_db_weight_spec(), x, y),
            w.spec_proof_size() == 3660,
    {
        let db = rocks_db_weight();
        Weight::from_parts(10_366_234, 3660).saturating_add(
            Weight::from_parts(5_398, 0).saturating_mul(x as u64),
        ).saturating_add(Weight::from_parts(354_995, 0).saturating_mul(y as u64)).saturating_add(
            db.reads(1),
        ).saturating_add(db.writes(1))
    }

    fn force_assignment(&self) -> (w: Weight)
        ensures
            w.spec_ref_time() == sat_add(
                5_683_000,
                sat_mul(rocks_db_weight_spec().write as int, 1) as int,
            ),
            w.spec_proof_size() == 0,
    {
        let db = rocks_db_weight();
        Weight::from_parts(5_683_000, 0).saturating_add(db.writes(1))
    }
}

} // verus!
