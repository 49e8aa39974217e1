//! Weights of the stream-payment pallet's calls in the flashbox runtime.
use crate::weight::{
    ref_time_with_db, RuntimeDbWeight, Weight,
};
use vstd::prelude::*;

verus! {

/// Weight functions of the pallet's calls.
pub trait WeightInfo {
    fn open_stream(&self) -> Weight;

    fn close_stream(&self) -> Weight;

    fn perform_payment(&self) -> Weight;

    fn request_change_immediate(&self) -> Weight;

    fn request_change_delayed(&self) -> Weight;

    fn accept_requested_change(&self) -> Weight;

    fn cancel_change_request(&self) -> Weight;

    fn immediately_change_deposit(&self) -> Weight;
}

/// Benchmarked weights under the runtime's database costs.
#[derive(Clone, Copy, Debug)]
pub struct SubstrateWeight {
    pub db_weight: RuntimeDbWeight,
}

impl WeightInfo for SubstrateWeight {
    fn open_stream(&self) -> (w: Weight)
        ensures
            w.spec_ref_time() == ref_time_with_db(61_394_000, self.db_weight, 3, 6),
            w.spec_proof_size() == 3593,
    {
        let db = self.db_weight;
        Weight::from_parts(61_394_000, 3593).saturating_add(db.reads(3)).saturating_add(db.writes(6))
    }

    fn close_stream(&self) -> (w: Weight)
        ensures
            w.spec_ref_time() == ref_time_with_db(126_338_000, self.db_weight, 4, 6),
            w.spec_proof_size() == 6196,
    {
        let db = self.db_weight;
        Weight::from_parts(126_338_000, 6196).saturating_add(db.reads(4)).saturating_add(db.writes(6))
    }

    fn perform_payment(&self) -> (w: Weight)
        ensures
            w.spec_ref_time() == ref_time_with_db(88_817_000, self.db_weight, 4, 4),
            w.spec_proof_size() == 6196,
    {
        let db = self.db_weight;
        Weight::from_parts(88_817_000, 6196).saturating_add(db.reads(4)).saturating_add(db.writes(4))
    }

    fn request_change_immediate(&self) -> (w: Weight)
        ensures
            w.spec_ref_time() == ref_time_with_db(128_165_000, self.db_weight, 4, 4),
            w.spec_proof_size() == 6196,
    {
        let db = self.db_weight;
        Weight::from_parts(128_165_000, 6196).saturating_add(db.reads(4)).saturating_add(db.writes(4))
    }

    fn request_change_delayed(&self) -> (w: Weight)
        ensures
            w.spec_ref_time() == ref_time_with_db(15_712_000, self.db_weight, 1, 1),
            w.spec_proof_size() == 3712,
    {
        let db = self.db_weight;
        Weight::from_parts(15_712_000, 3712).saturating_add(db.reads(1)).saturating_add(db.writes(1))
    }

    fn accept_requested_change(&self) -> (w: Weight)
        ensures
            w.spec_ref_time() == ref_time_with_db(118_871_000, self.db_weight, 4, 4),
            w.spec_proof_size() == 6196,
    {
        let db = self.db_weight;
        Weight::from_parts(118_871_000, 6196).saturating_add(db.reads(4)).saturating_add(db.writes(4))
    }

    fn cancel_change_request(&self) -> (w: Weight)
        ensures
            w.spec_ref_time() == ref_time_with_db(11_693_000, self.db_weight, 1, 1),
            w.spec_proof_size() == 3750,
    {
        let db = self.db_weight;
        Weight::from_parts(11_693_000, 3750).saturating_add(db.reads(1)).saturating_add(db.writes(1))
    }

    fn immediately_change_deposit(&self) -> (w: Weight)
        ensures
            w.spec_ref_time() == ref_time_with_db(118_428_000, self.db_weight, 4, 4),
            w.spec_proof_size() == 6196,
    {
        let db = self.db_weight;
        Weight::from_parts(118_428_000, 6196).saturating_add(db.reads(4)).saturating_add(db.writes(4))
    }
}

} // verus!
