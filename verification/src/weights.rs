//! Weights of the pallet's calls: computation time and proof size, with
//! the database reads and writes each call costs.
use vstd::prelude::*;

use core::marker::PhantomData;

verus! {

/// A call's weight: reference computation time and proof size.
#[derive(Clone, Copy, Debug, PartialEq, Eq, Structural)]
pub struct Weight {
    pub ref_time: u64,
    pub proof_size: u64,
}

pub open spec fn sat_add_u64(a: u64, b: u64) -> u64 {
    if a + b > u64::MAX {
        u64::MAX
    } else {
        (a + b) as u64
    }
}

pub open spec fn sat_mul_u64(a: u64, b: u64) -> u64 {
    if a * b > u64::MAX {
        u64::MAX
    } else {
        (a * b) as u64
    }
}

/// `a * b`, saturating at `u64::MAX`.
fn saturating_mul_u64(a: u64, b: u64) -> (p: u64)
    ensures
        p == sat_mul_u64(a, b),
{
    match a.checked_mul(b) {
        Some(v) => v,
        None => u64::MAX,
    }
}

/// The partwise sum of two weights, saturating.
pub open spec fn weight_add(a: Weight, b: Weight) -> Weight {
    Weight { ref_time: sat_add_u64(a.ref_time, b.ref_time), proof_size: sat_add_u64(a.proof_size, b.proof_size) }
}

/// The weight of `r` database reads.
pub open spec fn db_reads(db: RuntimeDbWeight, r: u64) -> Weight {
    Weight { ref_time: sat_mul_u64(db.read, r), proof_size: 0 }
}

/// The weight of `w` database writes.
pub open spec fn db_writes(db: RuntimeDbWeight, w: u64) -> Weight {
    Weight { ref_time: sat_mul_u64(db.write, w), proof_size: 0 }
}

/// The weights of one database read and one database write.
#[derive(Clone, Copy, Debug, PartialEq, Eq, Structural)]
pub struct RuntimeDbWeight {
    pub read: u64,
    pub write: u64,
}

impl Weight {
    /// The weight with the given parts.
    pub fn from_parts(ref_time: u64, proof_size: u64) -> (w: Weight)
        ensures
            w == (Weight { ref_time, proof_size }),
    {
        Weight { ref_time, proof_size }
    }

    /// The partwise sum, saturating.
    pub fn saturating_add(self, rhs: Weight) -> (w: Weight)
        ensures
            w == (Weight {
                ref_time: sat_add_u64(self.ref_time, rhs.ref_time),
                proof_size: sat_add_u64(self.proof_size, rhs.proof_size),
            }),
    {
        Weight {
            ref_time: self.ref_time.saturating_add(rhs.ref_time),
            proof_size: self.proof_size.saturating_add(rhs.proof_size),
        }
    }

    /// The computation time part.
    pub fn ref_time(&self) -> (t: u64)
        ensures
            t == self.ref_time,
    {
        self.ref_time
    }

    /// The proof size part.
    pub fn proof_size(&self) -> (p: u64)
        ensures
            p == self.proof_size,
    {
        self.proof_size
    }
}

impl RuntimeDbWeight {
    /// The weight of `r` reads, saturating.
    pub fn reads(self, r: u64) -> (w: Weight)
        ensures
            w == (Weight { ref_time: sat_mul_u64(self.read, r), proof_size: 0 }),
    {
        Weight::from_parts(saturating_mul_u64(self.read, r), 0)
    }

    /// The weight of `w` writes, saturating.
    pub fn writes(self, n: u64) -> (w: Weight)
        ensures
            w == (Weight { ref_time: sat_mul_u64(self.write, n), proof_size: 0 }),
    {
        Weight::from_parts(saturating_mul_u64(self.write, n), 0)
    }
}

/// A call's base weight plus `r` reads and `w` writes.
pub open spec fn with_db(
    db: RuntimeDbWeight,
    ref_time: u64,
    proof_size: u64,
    r: u64,
    w: u64,
) -> Weight {
    let base = Weight { ref_time, proof_size };
    let with_reads = Weight {
        ref_time: sat_add_u64(base.ref_time, sat_mul_u64(db.read, r)),
        proof_size: base.proof_size,
    };
    Weight {
        ref_time: sat_add_u64(with_reads.ref_time, sat_mul_u64(db.write, w)),
        proof_size: with_reads.proof_size,
    }
}

/// Weights of the pallet's calls, given the runtime's database weights.
pub trait WeightInfo {
    fn submit_proposal(db: RuntimeDbWeight) -> Weight;

    fn cast_vote(db: RuntimeDbWeight) -> Weight;

    fn finalize_proposal(db: RuntimeDbWeight) -> Weight;

    fn update_community_rank(db: RuntimeDbWeight) -> Weight;

    fn update_pouw_contribution(db: RuntimeDbWeight) -> Weight;

    fn council_override(db: RuntimeDbWeight) -> Weight;

    fn update_chain_parameter(db: RuntimeDbWeight) -> Weight;

    fn expire_council_member(db: RuntimeDbWeight) -> Weight;
}

/// Estimated weights: a base cost plus the database accesses of each call.
pub struct SubstrateWeight<T>(pub PhantomData<T>);

/// A base cost plus `r` reads and `w` writes.
fn estimate(db: RuntimeDbWeight, ref_time: u64, proof_size: u64, r: u64, w: u64) -> (out: Weight)
    ensures
        out == with_db(db, ref_time, proof_size, r, w),
{
    Weight::from_parts(ref_time, proof_size).saturating_add(db.reads(r)).saturating_add(db.writes(w))
}

impl<T> WeightInfo for SubstrateWeight<T> {
    fn submit_proposal(db: RuntimeDbWeight) -> (w: Weight)
        ensures
            w == with_db(db, 40_000_000, 1536, 3, 3),
    {
        estimate(db, 40_000_000, 1536, 3, 3)
    }

    fn cast_vote(db: RuntimeDbWeight) -> (w: Weight)
        ensures
            w == with_db(db, 30_000_000, 2048, 4, 2),
    {
        estimate(db, 30_000_000, 2048, 4, 2)
    }

    fn finalize_proposal(db: RuntimeDbWeight) -> (w: Weight)
        ensures
            w == with_db(db, 60_000_000, 2560, 4, 3),
    {
        estimate(db, 60_000_000, 2560, 4, 3)
    }

    fn update_community_rank(db: RuntimeDbWeight) -> (w: Weight)
        ensures
            w == with_db(db, 10_000_000, 1024, 1, 1),
    {
        estimate(db, 10_000_000, 1024, 1, 1)
    }

    fn update_pouw_contribution(db: RuntimeDbWeight) -> (w: Weight)
        ensures
            w == with_db(db, 10_000_000, 1536, 1, 1),
    {
        estimate(db, 10_000_000, 1536, 1, 1)
    }

    fn council_override(db: RuntimeDbWeight) -> (w: Weight)
        ensures
            w == with_db(db, 25_000_000, 1536, 2, 1),
    {
        estimate(db, 25_000_000, 1536, 2, 1)
    }

    fn update_chain_parameter(db: RuntimeDbWeight) -> (w: Weight)
        ensures
            w == with_db(db, 15_000_000, 512, 1, 1),
    {
        estimate(db, 15_000_000, 512, 1, 1)
    }

    fn expire_council_member(db: RuntimeDbWeight) -> (w: Weight)
        ensures
            w == with_db(db, 12_000_000, 1024, 1, 2),
    {
        estimate(db, 12_000_000, 1024, 1, 2)
    }
}

/// Fixed weights for runtimes without database weights.
impl WeightInfo for () {
    fn submit_proposal(db: RuntimeDbWeight) -> (w: Weight)
        ensures
            w == (Weight { ref_time: 15_000_000, proof_size: 3012 }),
    {
        Weight::from_parts(15_000_000, 512).saturating_add(Weight::from_parts(0, 2500))
    }

    fn cast_vote(db: RuntimeDbWeight) -> (w: Weight)
        ensures
            w == (Weight { ref_time: 10_000_000, proof_size: 2012 }),
    {
        Weight::from_parts(10_000_000, 512).saturating_add(Weight::from_parts(0, 1500))
    }

    fn finalize_proposal(db: RuntimeDbWeight) -> (w: Weight)
        ensures
            w == (Weight { ref_time: 12_000_000, proof_size: 2512 }),
    {
        Weight::from_parts(12_000_000, 512).saturating_add(Weight::from_parts(0, 2000))
    }

    fn update_community_rank(db: RuntimeDbWeight) -> (w: Weight)
        ensures
            w == (Weight { ref_time: 5_000_000, proof_size: 1012 }),
    {
        Weight::from_parts(5_000_000, 512).saturating_add(Weight::from_parts(0, 500))
    }

    fn update_pouw_contribution(db: RuntimeDbWeight) -> (w: Weight)
        ensures
            w == (Weight { ref_time: 5_000_000, proof_size: 1012 }),
    {
        Weight::from_parts(5_000_000, 512).saturating_add(Weight::from_parts(0, 500))
    }

    fn council_override(db: RuntimeDbWeight) -> (w: Weight)
        ensures
            w == (Weight { ref_time: 8_000_000, proof_size: 1512 }),
    {
        Weight::from_parts(8_000_000, 512).saturating_add(Weight::from_parts(0, 1000))
    }

    fn update_chain_parameter(db: RuntimeDbWeight) -> (w: Weight)
        ensures
            w == (Weight { ref_time: 10_000_000, proof_size: 1012 }),
    {
        Weight::from_parts(10_000_000, 512).saturating_add(Weight::from_parts(0, 500))
    }

    fn expire_council_member(db: RuntimeDbWeight) -> (w: Weight)
        ensures
            w == (Weight { ref_time: 10_000_000, proof_size: 1512 }),
    {
        Weight::from_parts(10_000_000, 512).saturating_add(Weight::from_parts(0, 1000))
    }
}

} // verus!
