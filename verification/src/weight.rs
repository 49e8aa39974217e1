//! Two-dimensional execution weights (reference time and proof size) with
//! saturating arithmetic, and the cost of database reads and writes.
use vstd::prelude::*;

verus! {

/// `a + b`, saturating at `u64::MAX`.
pub open spec fn sat_add(a: int, b: int) -> u64 {
    if a + b > u64::MAX {
        u64::MAX
    } else {
        (a + b) as u64
    }
}

/// `a * b`, saturating at `u64::MAX`.
pub open spec fn sat_mul(a: int, b: int) -> u64 {
    if a * b > u64::MAX {
        u64::MAX
    } else {
        (a * b) as u64
    }
}

fn saturating_mul_u64(a: u64, b: u64) -> (r: u64)
    ensures
        r == sat_mul(a as int, b as int),
{
    match a.checked_mul(b) {
        Some(v) => v,
        None => u64::MAX,
    }
}

/// An amount of execution resources: reference time and proof size.
#[derive(Clone, Copy, Debug, PartialEq, Eq, Default)]
pub struct Weight {
    ref_time: u64,
    proof_size: u64,
}

impl Weight {
    /// The reference time component.
    pub closed spec fn spec_ref_time(self) -> u64 {
        self.ref_time
    }

    /// The proof size component.
    pub closed spec fn spec_proof_size(self) -> u64 {
        self.proof_size
    }

    /// The weight with the given components.
    pub fn from_parts(ref_time: u64, proof_size: u64) -> (w: Weight)
        ensures
            w.spec_ref_time() == ref_time,
            w.spec_proof_size() == proof_size,
    {
        Weight { ref_time, proof_size }
    }

    /// The zero weight.
    pub fn zero() -> (w: Weight)
        ensures
            w.spec_ref_time() == 0,
            w.spec_proof_size() == 0,
    {
        Weight { ref_time: 0, proof_size: 0 }
    }

    /// The reference time component.
    pub fn ref_time(&self) -> (r: u64)
        ensures
            r == self.spec_ref_time(),
    {
        self.ref_time
    }

    /// The proof size component.
    pub fn proof_size(&self) -> (r: u64)
        ensures
            r == self.spec_proof_size(),
    {
        self.proof_size
    }

    /// Componentwise sum, saturating at the numeric bound.
    pub fn saturating_add(self, rhs: Weight) -> (w: Weight)
        ensures
            w.spec_ref_time() == sat_add(self.spec_ref_time() as int, rhs.spec_ref_time() as int),
            w.spec_proof_size() == sat_add(
                self.spec_proof_size() as int,
                rhs.spec_proof_size() as int,
            ),
    {
        Weight {
            ref_time: self.ref_time.saturating_add(rhs.ref_time),
            proof_size: self.proof_size.saturating_add(rhs.proof_size),
        }
    }

    /// Both components multiplied by `scalar`, saturating at the numeric bound.
    pub fn saturating_mul(self, scalar: u64) -> (w: Weight)
        ensures
            w.spec_ref_time() == sat_mul(self.spec_ref_time() as int, scalar as int),
            w.spec_proof_size() == sat_mul(self.spec_proof_size() as int, scalar as int),
    {
        Weight {
            ref_time: saturating_mul_u64(self.ref_time, scalar),
            proof_size: saturating_mul_u64(self.proof_size, scalar),
        }
    }
}

/// The reference time that one database read and one write cost.
#[derive(Clone, Copy, Debug, PartialEq, Eq, Default)]
pub struct RuntimeDbWeight {
    pub read: u64,
    pub write: u64,
}

impl RuntimeDbWeight {
    /// The weight of `r` reads.
    pub fn reads(self, r: u64) -> (w: Weight)
        ensures
            w.spec_ref_time() == sat_mul(self.read as int, r as int),
            w.spec_proof_size() == 0,
    {
        Weight::from_parts(saturating_mul_u64(self.read, r), 0)
    }

    /// The weight of `w` writes.
    pub fn writes(self, w: u64) -> (r: Weight)
        ensures
            r.spec_ref_time() == sat_mul(self.write as int, w as int),
            r.spec_proof_size() == 0,
    {
        Weight::from_parts(saturating_mul_u64(self.write, w), 0)
    }

    /// The weight of `r` reads and `w` writes.
    pub fn reads_writes(self, r: u64, w: u64) -> (res: Weight)
        ensures
            res.spec_ref_time() == sat_add(
                sat_mul(self.read as int, r as int) as int,
                sat_mul(self.write as int, w as int) as int,
            ),
            res.spec_proof_size() == 0,
    {
        let read_weight = saturating_mul_u64(self.read, r);
        let write_weight = saturating_mul_u64(self.write, w);
        Weight::from_parts(read_weight.saturating_add(write_weight), 0)
    }
}

/// Reference time `base` plus `r` reads and then `w` writes, each addition saturating.
pub open spec fn ref_time_with_db(base: u64, db: RuntimeDbWeight, r: u64, w: u64) -> u64 {
    sat_add(
        sat_add(base as int, sat_mul(db.read as int, r as int) as int) as int,
        sat_mul(db.write as int, w as int) as int,
    )
}

/// Reference time of one nanosecond.
pub const WEIGHT_REF_TIME_PER_NANOS: u64 = 1_000;

/// The database costs of a RocksDB backend: 25 µs per read, 100 µs per write.
pub open spec fn rocks_db_weight_spec() -> RuntimeDbWeight {
    RuntimeDbWeight {
        read: (25_000 * WEIGHT_REF_TIME_PER_NANOS) as u64,
        write: (100_000 * WEIGHT_REF_TIME_PER_NANOS) as u64,
    }
}

/// The database costs of a RocksDB backend: 25 µs per read, 100 µs per write.
pub fn rocks_db_weight() -> (w: RuntimeDbWeight)
    ensures
        w == rocks_db_weight_spec(),
{
    RuntimeDbWeight {
        read: 25_000 * WEIGHT_REF_TIME_PER_NANOS,
        write: 100_000 * WEIGHT_REF_TIME_PER_NANOS,
    }
}

} // verus!
