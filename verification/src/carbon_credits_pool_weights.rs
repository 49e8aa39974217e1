//! Weights of the carbon-credits pool pallet's calls.
use crate::weight::{
    ref_time_with_db, rocks_db_weight, rocks_db_weight_spec, RuntimeDbWeight, Weight,
};
use vstd::prelude::*;

verus! {

/// Weight functions of the pallet's calls.
pub trait WeightInfo {
    fn create(&self) -> Weight;

    fn deposit(&self) -> Weight;

    fn retire(&self) -> Weight;
}

/// Benchmarked weights under the runtime's database costs.
#[derive(Clone, Copy, Debug)]
pub struct SubstrateWeight {
    pub db_weight: RuntimeDbWeight,
}

impl WeightInfo for SubstrateWeight {
    fn create(&self) -> (w: Weight)
        ensures
            w.spec_ref_time() == ref_time_with_db(25_000_000, self.db_weight, 3, 3),
            w.spec_proof_size() == 0,
    {
        let db = self.db_weight;
        Weight::from_parts(25_000_000, 0).saturating_add(db.reads(3)).saturating_add(db.writes(3))
    }

    fn deposit(&self) -> (w: Weight)
        ensures
            w.spec_ref_time() == ref_time_with_db(67_000_000, self.db_weight, 9, 8),
            w.spec_proof_size() == 0,
    {
        let db = self.db_weight;
        Weight::from_parts(67_000_000, 0).saturating_add(db.reads(9)).saturating_add(db.writes(8))
    }

    fn retire(&self) -> (w: Weight)
        ensures
            w.spec_ref_time() == ref_time_with_db(101_000_000, self.db_weight, 11, 13),
            w.spec_proof_size() == 0,
    {
        let db = self.db_weight;
        Weight::from_parts(101_000_000, 0).saturating_add(db.reads(11)).saturating_add(db.writes(13))
    }
}

/// Benchmarked weights under RocksDB database costs.
impl WeightInfo for () {
    fn create(&self) -> (w: Weight)
        ensures
            w.spec_ref_time() == ref_time_with_db(25_000_000, rocks_db_weight_spec(), 3, 3),
            w.spec_proof_size() == 0,
    {
        let db = rocks_db_weight();
        Weight::from_parts(25_000_000, 0).saturating_add(db.reads(3)).saturating_add(db.writes(3))
    }

    fn deposit(&self) -> (w: Weight)
        ensures
            w.spec_ref_time() == ref_time_with_db(67_000_000, rocks_db_weight_spec(), 9, 8),
            w.spec_proof_size() == 0,
    {
        let db = rocks_db_weight();
        Weight::from_parts(67_000_000, 0).saturating_add(db.reads(9)).saturating_add(db.writes(8))
    }

    fn retire(&self) -> (w: Weight)
        ensures
            w.spec_ref_time() == ref_time_with_db(101_000_000, rocks_db_weight_spec(), 11, 13),
            w.spec_proof_size() == 0,
    {
        let db = rocks_db_weight();
        Weight::from_parts(101_000_000, 0).saturating_add(db.reads(11)).saturating_add(db.writes(13))
    }
}

} // verus!
