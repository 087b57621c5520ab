//! Blob-fee parameters and the two computations taken from the blob-fee
//! market: the fee for a given excess, and the next block's excess.

use vstd::prelude::*;
use vstd::arithmetic::div_mod::{lemma_fundamental_div_mod, lemma_fundamental_div_mod_converse_div, lemma_mod_pos_bound};

verus! {

/// Blob gas taken by one blob.
pub const DATA_GAS_PER_BLOB: u64 = 131072;

/// Parameters of the blob-fee market in force for a block.
#[derive(Debug, Clone, Copy, PartialEq, Eq, Structural)]
pub struct BlobParams {
    pub target_blob_count: u64,
    pub max_blob_count: u64,
    pub update_fraction: u128,
    pub min_blob_fee: u128,
    pub max_blobs_per_tx: u64,
    pub blob_base_cost: u64,
}

/// The blob fee at a given excess blob gas, as the fee market computes it
/// (an integer approximation of `min_fee * e^(excess / update_fraction)`).
pub uninterp spec fn blob_fee(min_fee: u128, update_fraction: u128, excess: u64) -> u128;

/// `v` raised `k` times by the factor 68/25, rounding up each time. Since
/// 68/25 exceeds e, `fee_growth(v, k)` is at least `v * e^k`.
pub open spec fn fee_growth(v: nat, k: nat) -> nat
    decreases k,
{
    if k == 0 {
        v
    } else {
        fee_growth((v * 68 + 24) / 25, (k - 1) as nat)
    }
}

/// An upper bound of the fee market's series total for an excess:
/// `min_fee * update_fraction * e^(excess / update_fraction)`, bounded by
/// growing `min_fee * update_fraction` once more than the whole exponent.
pub open spec fn fee_series_bound(p: BlobParams, excess: u64) -> nat {
    fee_growth((p.min_blob_fee * p.update_fraction) as nat, (excess as int / p.update_fraction as int + 1) as nat)
}

/// The inputs on which the fee is computed without overflow or division by
/// zero: a non-zero update fraction of at most 64 bits, and a series total
/// within 128 bits.
pub open spec fn fee_defined(p: BlobParams, excess: u64) -> bool {
    &&& 1 <= p.update_fraction <= u64::MAX
    &&& fee_series_bound(p, excess) <= u128::MAX
}

/// The fee, scaled by the blob gas of one blob, stays within 128 bits.
pub open spec fn fee_product_fits(p: BlobParams, excess: u64) -> bool {
    (fee_series_bound(p, excess) as int) / (p.update_fraction as int) <= (u128::MAX as int) / (DATA_GAS_PER_BLOB as int)
}

/// The inputs on which the next-excess update computes without overflow or
/// division by zero: the sum and the target fit; from the target on, the
/// fee is computed and compared; where blob execution cost can dominate,
/// the scaled share above target is computed.
pub open spec fn excess_update_defined(p: BlobParams, excess: u64, used: u64) -> bool {
    &&& excess + used <= u64::MAX
    &&& p.target_blob_count * DATA_GAS_PER_BLOB <= u64::MAX
    &&& excess + used >= p.target_blob_count * DATA_GAS_PER_BLOB ==> {
        &&& fee_defined(p, excess)
        &&& fee_product_fits(p, excess)
        &&& p.blob_base_cost > 0 ==> {
            &&& p.target_blob_count <= p.max_blob_count
            &&& p.max_blob_count > 0
            &&& used * (p.max_blob_count - p.target_blob_count) <= u64::MAX
        }
    }
}

/// The next block's excess blob gas from the parent's excess, blob gas used
/// and base fee: below target it resets to zero; when blob execution cost
/// dominates the blob fee, the excess grows by the used share above target;
/// else it is the sum less the target.
pub open spec fn next_excess_of(p: BlobParams, excess: u64, used: u64, base_fee: u64) -> int {
    let next = excess + used;
    let target = p.target_blob_count * DATA_GAS_PER_BLOB;
    if next < target {
        0
    } else if p.blob_base_cost * base_fee > DATA_GAS_PER_BLOB * blob_fee(p.min_blob_fee, p.update_fraction, excess) {
        excess + (used * (p.max_blob_count - p.target_blob_count)) / (p.max_blob_count as int)
    } else {
        next - target
    }
}

proof fn lemma_u64_product_fits(a: u64, b: u64)
    ensures
        a * b <= u128::MAX,
{
    assert(a * b <= u64::MAX * u64::MAX) by (nonlinear_arith);
}

proof fn lemma_growth_step(v: nat)
    ensures
        (v * 68 + 24) / 25 >= v,
        v == 0 ==> (v * 68 + 24) / 25 == 0,
{
    let x: int = v as int * 68 + 24;
    let q = x / 25;
    let r = x % 25;
    lemma_fundamental_div_mod(x, 25);
    assert(x == 25 * q + r);
    assert(0 <= r < 25);
}

proof fn lemma_growth_at_least(v: nat, k: nat)
    ensures
        fee_growth(v, k) >= v,
    decreases k,
{
    if k > 0 {
        lemma_growth_step(v);
        lemma_growth_at_least((v * 68 + 24) / 25, (k - 1) as nat);
    }
}

proof fn lemma_growth_of_zero(k: nat)
    ensures
        fee_growth(0, k) == 0,
    decreases k,
{
    if k > 0 {
        lemma_growth_step(0);
        lemma_growth_of_zero((k - 1) as nat);
    }
}

/// One growth step, or `None` where it leaves 128 bits.
fn growth_step(v: u128) -> (r: Option<u128>)
    ensures
        match r {
            Some(w) => w as int == (v * 68 + 24) / 25,
            None => (v * 68 + 24) / 25 > u128::MAX,
        },
{
    let a = v / 25;
    let b = v % 25;
    let c = (68 * b + 24) / 25;
    proof {
        let x: int = v as int * 68 + 24;
        lemma_fundamental_div_mod(v as int, 25);
        lemma_fundamental_div_mod(68 * b + 24, 25);
        let s = (68 * b + 24) % 25;
        assert(x == (68 * a + c) * 25 + s);
        lemma_fundamental_div_mod_converse_div(x, 25, 68 * a + c, s);
    }
    if a <= (u128::MAX - c) / 68 {
        proof {
            lemma_fundamental_div_mod((u128::MAX - c) as int, 68);
        }
        Some(68 * a + c)
    } else {
        proof {
            lemma_fundamental_div_mod((u128::MAX - c) as int, 68);
        }
        None
    }
}

/// The series bound of `fee_series_bound`, where it fits in 128 bits.
fn series_bound(p: &BlobParams, excess: u64) -> (r: Option<u128>)
    requires
        p.update_fraction >= 1,
    ensures
        match r {
            Some(b) => b as nat == fee_series_bound(*p, excess),
            None => fee_series_bound(*p, excess) > u128::MAX,
        },
{
    let d = p.update_fraction;
    let k_total: u128 = excess as u128 / d + 1;
    if p.min_blob_fee > u128::MAX / d {
        proof {
            lemma_fundamental_div_mod(u128::MAX as int, d as int);
            lemma_mod_pos_bound(u128::MAX as int, d as int);
            let q = u128::MAX as int / d as int;
            assert(p.min_blob_fee * d >= (q + 1) * d) by (nonlinear_arith)
                requires
                    p.min_blob_fee >= q + 1,
                    d >= 1,
            ;
            assert((q + 1) * d == d * q + d) by (nonlinear_arith);
            assert(p.min_blob_fee * d > u128::MAX);
            assert(k_total as int == excess as int / p.update_fraction as int + 1);
            lemma_growth_at_least((p.min_blob_fee * d) as nat, k_total as nat);
        }
        return None;
    }
    proof {
        lemma_fundamental_div_mod(u128::MAX as int, d as int);
        let q = u128::MAX as int / d as int;
        assert(p.min_blob_fee * d <= q * d) by (nonlinear_arith)
            requires
                p.min_blob_fee <= q,
                d >= 1,
        ;
    }
    let v0 = p.min_blob_fee * d;
    if v0 == 0 {
        proof {
            lemma_growth_of_zero(k_total as nat);
        }
        return Some(0);
    }
    let mut v = v0;
    let mut j: u128 = 0;
    while j < k_total
        invariant
            j <= k_total,
            k_total as int == excess as int / d as int + 1,
            d == p.update_fraction,
            v0 == p.min_blob_fee * p.update_fraction,
            fee_growth(v0 as nat, k_total as nat) == fee_growth(v as nat, (k_total - j) as nat),
        decreases k_total - j,
    {
        match growth_step(v) {
            Some(w) => {
                v = w;
            },
            None => {
                proof {
                    lemma_growth_at_least(((v * 68 + 24) / 25) as nat, (k_total - j - 1) as nat);
                }
                return None;
            },
        }
        j += 1;
    }
    Some(v)
}

impl BlobParams {
    /// The parameters activated with Cancun.
    pub fn cancun() -> (r: BlobParams)
        ensures
            r == (BlobParams {
                target_blob_count: 3,
                max_blob_count: 6,
                update_fraction: 3338477,
                min_blob_fee: 1,
                max_blobs_per_tx: 6,
                blob_base_cost: 0,
            }),
    {
        BlobParams {
            target_blob_count: 3,
            max_blob_count: 6,
            update_fraction: 3338477,
            min_blob_fee: 1,
            max_blobs_per_tx: 6,
            blob_base_cost: 0,
        }
    }

    pub fn fee_defined_at(&self, excess: u64) -> (r: bool)
        ensures
            r == fee_defined(*self, excess),
    {
        if self.update_fraction < 1 || self.update_fraction > u64::MAX as u128 {
            return false;
        }
        series_bound(self, excess).is_some()
    }

    pub fn excess_update_defined_at(&self, excess: u64, used: u64) -> (r: bool)
        ensures
            r == excess_update_defined(*self, excess, used),
    {
        proof {
            lemma_u64_product_fits(self.target_blob_count, DATA_GAS_PER_BLOB);
        }
        if excess as u128 + used as u128 > u64::MAX as u128
            || self.target_blob_count as u128 * DATA_GAS_PER_BLOB as u128 > u64::MAX as u128 {
            return false;
        }
        if excess + used < self.target_blob_count * DATA_GAS_PER_BLOB {
            return true;
        }
        if !self.fee_defined_at(excess) {
            return false;
        }
        let fits = match series_bound(self, excess) {
            Some(b) => b / self.update_fraction <= u128::MAX / DATA_GAS_PER_BLOB as u128,
            None => false,
        };
        if !fits {
            return false;
        }
        if self.blob_base_cost == 0 {
            return true;
        }
        if !(self.target_blob_count <= self.max_blob_count && self.max_blob_count > 0) {
            return false;
        }
        let spread = self.max_blob_count - self.target_blob_count;
        proof {
            lemma_u64_product_fits(used, spread);
        }
        used as u128 * spread as u128 <= u64::MAX as u128
    }

    /// The blob fee at the given excess blob gas.
    pub fn blob_fee_at(&self, excess: u64) -> (r: u128)
        requires
            fee_defined(*self, excess),
        ensures
            r == blob_fee(self.min_blob_fee, self.update_fraction, excess),
    {
        calc_blob_fee(self, excess)
    }

    /// The next block's excess blob gas.
    pub fn next_block_excess_blob_gas(&self, excess: u64, used: u64, base_fee: u64) -> (r: u64)
        requires
            excess_update_defined(*self, excess, used),
        ensures
            r as int == next_excess_of(*self, excess, used, base_fee),
    {
        next_block_excess_blob_gas_osaka(self, excess, used, base_fee)
    }
}

/// Relies on alloy_eips `BlobParams::calc_blob_fee`, which is
/// `fake_exponential(min_blob_fee, excess, update_fraction)`: the fee depends
/// on these three alone. Its series total is at most
/// `min_fee * update_fraction * e^(excess / update_fraction)`, below
/// `fee_series_bound`, so in the range of `fee_defined` the first product and
/// the running total fit in 128 bits; the divisor is non-zero, and
/// `update_fraction * i` fits because the loop ends within a few hundred
/// steps once terms stop growing.
#[verifier::external_body]
fn calc_blob_fee(p: &BlobParams, excess: u64) -> (r: u128)
    requires
        fee_defined(*p, excess),
    ensures
        r == blob_fee(p.min_blob_fee, p.update_fraction, excess),
{
    alloy_eips::eip7840::BlobParams {
        target_blob_count: p.target_blob_count,
        max_blob_count: p.max_blob_count,
        update_fraction: p.update_fraction,
        min_blob_fee: p.min_blob_fee,
        max_blobs_per_tx: p.max_blobs_per_tx,
        blob_base_cost: p.blob_base_cost,
    }.calc_blob_fee(excess)
}

/// Relies on alloy_eips `BlobParams::next_block_excess_blob_gas_osaka`: the
/// update written out in `next_excess_of`, with the blob fee it computes
/// through `calc_blob_fee`; the fee scaled by one blob's gas fits because
/// the fee is at most the series total over `update_fraction`.
#[verifier::external_body]
fn next_block_excess_blob_gas_osaka(p: &BlobParams, excess: u64, used: u64, base_fee: u64) -> (r: u64)
    requires
        excess_update_defined(*p, excess, used),
    ensures
        r as int == next_excess_of(*p, excess, used, base_fee),
{
    alloy_eips::eip7840::BlobParams {
        target_blob_count: p.target_blob_count,
        max_blob_count: p.max_blob_count,
        update_fraction: p.update_fraction,
        min_blob_fee: p.min_blob_fee,
        max_blobs_per_tx: p.max_blobs_per_tx,
        blob_base_cost: p.blob_base_cost,
    }.next_block_excess_blob_gas_osaka(excess, used, base_fee)
}

} // verus!
