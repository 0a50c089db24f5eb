//! Two-dimensional weights (reference time and proof size), database access
//! weights, and the weights of this library's dispatchable calls.
use vstd::prelude::*;

verus! {

/// `a + b`, clamped at `u64::MAX`.
pub open spec fn sat_add_u64(a: u64, b: u64) -> u64 {
    if a + b > u64::MAX {
        u64::MAX
    } else {
        (a + b) as u64
    }
}

/// `a * b`, clamped at `u64::MAX`.
pub open spec fn sat_mul_u64(a: u64, b: u64) -> u64 {
    if a * b > u64::MAX {
        u64::MAX
    } else {
        (a * b) as u64
    }
}

/// The base reference time charged by every call of the pallet, before database accesses.
pub const BASE_REF_TIME: u64 = 10_000;

/// A weight: computation time and proof size.
#[derive(Clone, Copy, Debug)]
pub struct Weight {
    pub ref_time: u64,
    pub proof_size: u64,
}

/// The weight of one database read and of one database write.
#[derive(Clone, Copy, Debug)]
pub struct RuntimeDbWeight {
    pub read: u64,
    pub write: u64,
}

/// Calls `sp_weights::Weight::saturating_add`: the component-wise sum of two
/// weights, each component clamped at `u64::MAX`.
#[verifier::external_body]
fn weight_saturating_add(a: Weight, b: Weight) -> (r: Weight)
    ensures
        r.ref_time == sat_add_u64(a.ref_time, b.ref_time),
        r.proof_size == sat_add_u64(a.proof_size, b.proof_size),
{
    let w = sp_weights::Weight::from_parts(a.ref_time, a.proof_size).saturating_add(
        sp_weights::Weight::from_parts(b.ref_time, b.proof_size),
    );
    Weight { ref_time: w.ref_time(), proof_size: w.proof_size() }
}

/// Calls `sp_weights::RuntimeDbWeight::writes`: `write * w` (clamped) as reference
/// time, with no proof size.
#[verifier::external_body]
fn db_weight_writes(db: RuntimeDbWeight, w: u64) -> (r: Weight)
    ensures
        r.ref_time == sat_mul_u64(db.write, w),
        r.proof_size == 0,
{
    let r = sp_weights::RuntimeDbWeight { read: db.read, write: db.write }.writes(w);
    Weight { ref_time: r.ref_time(), proof_size: r.proof_size() }
}

/// Calls `sp_weights::RuntimeDbWeight::reads_writes`: `read * r + write * w`, each
/// product and the sum clamped, as reference time, with no proof size.
#[verifier::external_body]
fn db_weight_reads_writes(db: RuntimeDbWeight, r: u64, w: u64) -> (res: Weight)
    ensures
        res.ref_time == sat_add_u64(sat_mul_u64(db.read, r), sat_mul_u64(db.write, w)),
        res.proof_size == 0,
{
    let x = sp_weights::RuntimeDbWeight { read: db.read, write: db.write }.reads_writes(r, w);
    Weight { ref_time: x.ref_time(), proof_size: x.proof_size() }
}

/// Reads `frame_support::weights::constants::RocksDbWeight`: a read costs 25 µs and a
/// write 100 µs of reference time (one µs being a million units).
#[verifier::external_body]
fn rocks_db_weight() -> (r: RuntimeDbWeight)
    ensures
        r.read == 25_000_000,
        r.write == 100_000_000,
{
    let w = <frame_support::weights::constants::RocksDbWeight as frame_support::traits::Get<
        sp_weights::RuntimeDbWeight,
    >>::get();
    RuntimeDbWeight { read: w.read, write: w.write }
}

impl Weight {
    /// A weight from its two components.
    pub fn from_parts(ref_time: u64, proof_size: u64) -> (w: Weight)
        ensures
            w.ref_time == ref_time,
            w.proof_size == proof_size,
    {
        Weight { ref_time, proof_size }
    }

    /// The largest weight: both components at `u64::MAX`.
    pub fn max_value() -> (w: Weight)
        ensures
            w.ref_time == u64::MAX,
            w.proof_size == u64::MAX,
    {
        Weight { ref_time: u64::MAX, proof_size: u64::MAX }
    }

    /// Component-wise saturating addition.
    pub fn saturating_add(self, rhs: Weight) -> (w: Weight)
        ensures
            w.ref_time == sat_add_u64(self.ref_time, rhs.ref_time),
            w.proof_size == sat_add_u64(self.proof_size, rhs.proof_size),
    {
        weight_saturating_add(self, rhs)
    }
}

impl RuntimeDbWeight {
    /// The weight of `w` writes.
    pub fn writes(self, w: u64) -> (r: Weight)
        ensures
            r.ref_time == sat_mul_u64(self.write, w),
            r.proof_size == 0,
    {
        db_weight_writes(self, w)
    }

    /// The weight of `r` reads and `w` writes.
    pub fn reads_writes(self, r: u64, w: u64) -> (res: Weight)
        ensures
            res.ref_time == sat_add_u64(sat_mul_u64(self.read, r), sat_mul_u64(self.write, w)),
            res.proof_size == 0,
    {
        db_weight_reads_writes(self, r, w)
    }

    /// The database weights of RocksDB, the default backend.
    pub fn rocks_db() -> (r: RuntimeDbWeight)
        ensures
            r.read == 25_000_000,
            r.write == 100_000_000,
    {
        rocks_db_weight()
    }
}

/// The weight of a call that writes once: base time plus one write.
pub open spec fn one_write_weight(db: RuntimeDbWeight) -> Weight {
    Weight { ref_time: sat_add_u64(BASE_REF_TIME, sat_mul_u64(db.write, 1)), proof_size: 0 }
}

/// The weight of a call that reads and writes once: base time plus one read and one write.
pub open spec fn one_read_write_weight(db: RuntimeDbWeight) -> Weight {
    Weight {
        ref_time: sat_add_u64(
            BASE_REF_TIME,
            sat_add_u64(sat_mul_u64(db.read, 1), sat_mul_u64(db.write, 1)),
        ),
        proof_size: 0,
    }
}

/// Weight functions of the pallet's calls.
pub trait WeightInfo {
    fn register_native_asset_on_ah(&self) -> Weight;

    fn transfer_to_ah(&self) -> Weight;

    fn setup_pool_on_ah(&self) -> Weight;
}

/// The pallet's weights for a runtime whose database weight is `db`.
#[derive(Clone, Copy, Debug)]
pub struct SubstrateWeight {
    pub db: RuntimeDbWeight,
}

impl SubstrateWeight {
    /// Weights for a runtime with database weight `db`.
    pub fn new(db: RuntimeDbWeight) -> (s: SubstrateWeight)
        ensures
            s.db == db,
    {
        SubstrateWeight { db }
    }
}

impl WeightInfo for SubstrateWeight {
    fn register_native_asset_on_ah(&self) -> (w: Weight)
        ensures
            w == one_write_weight(self.db),
    {
        Weight::from_parts(BASE_REF_TIME, 0).saturating_add(self.db.writes(1))
    }

    fn transfer_to_ah(&self) -> (w: Weight)
        ensures
            w == one_read_write_weight(self.db),
    {
        Weight::from_parts(BASE_REF_TIME, 0).saturating_add(self.db.reads_writes(1, 1))
    }

    fn setup_pool_on_ah(&self) -> (w: Weight)
        ensures
            w == one_read_write_weight(self.db),
    {
        Weight::from_parts(BASE_REF_TIME, 0).saturating_add(self.db.reads_writes(1, 1))
    }
}

/// Without a runtime, the weights are computed with the RocksDB database weights.
impl WeightInfo for () {
    fn register_native_asset_on_ah(&self) -> (w: Weight)
        ensures
            w == one_write_weight(RuntimeDbWeight { read: 25_000_000, write: 100_000_000 }),
    {
        Weight::from_parts(BASE_REF_TIME, 0).saturating_add(RuntimeDbWeight::rocks_db().writes(1))
    }

    fn transfer_to_ah(&self) -> (w: Weight)
        ensures
            w == one_read_write_weight(RuntimeDbWeight { read: 25_000_000, write: 100_000_000 }),
    {
        Weight::from_parts(BASE_REF_TIME, 0).saturating_add(
            RuntimeDbWeight::rocks_db().reads_writes(1, 1),
        )
    }

    fn setup_pool_on_ah(&self) -> (w: Weight)
        ensures
            w == one_read_write_weight(RuntimeDbWeight { read: 25_000_000, write: 100_000_000 }),
    {
        Weight::from_parts(BASE_REF_TIME, 0).saturating_add(
            RuntimeDbWeight::rocks_db().reads_writes(1, 1),
        )
    }
}

} // verus!
