//! Plain-value forms of the chain's fixed-width quantities.

use vstd::prelude::*;

verus! {

/// A 20-byte account address.
pub type Address = [u8; 20];

/// A 32-byte word: hashes, randomness, storage values.
pub type B256 = [u8; 32];

/// The all-zero address.
pub fn zero_address() -> (r: Address)
    ensures
        forall|i: int| 0 <= i < 20 ==> r[i] == 0u8,
{
    [0u8; 20]
}

/// The all-zero word.
pub fn zero_word() -> (r: B256)
    ensures
        forall|i: int| 0 <= i < 32 ==> r[i] == 0u8,
{
    [0u8; 32]
}

/// An unsigned 256-bit integer, held as its high and low 128-bit halves.
#[derive(Debug, Clone, Copy, PartialEq, Eq, Structural)]
pub struct U256 {
    pub hi: u128,
    pub lo: u128,
}

pub open spec fn two_128() -> int {
    (u128::MAX as int) + 1
}

/// The number a big-endian byte string spells.
pub open spec fn be_value(s: Seq<u8>) -> nat
    decreases s.len(),
{
    if s.len() == 0 {
        0
    } else {
        be_value(s.drop_last()) * 256 + s.last() as nat
    }
}

pub open spec fn pow256(n: nat) -> nat
    decreases n,
{
    if n == 0 {
        1
    } else {
        256 * pow256((n - 1) as nat)
    }
}

proof fn lemma_be_bound(s: Seq<u8>)
    ensures
        be_value(s) < pow256(s.len()),
    decreases s.len(),
{
    if s.len() > 0 {
        lemma_be_bound(s.drop_last());
    }
}

proof fn lemma_pow_monotone(i: nat, j: nat)
    requires
        i <= j,
    ensures
        pow256(i) <= pow256(j),
    decreases j - i,
{
    if i < j {
        lemma_pow_monotone(i, (j - 1) as nat);
    }
}

proof fn lemma_be_concat(a: Seq<u8>, c: Seq<u8>)
    ensures
        be_value(a + c) == be_value(a) * pow256(c.len()) + be_value(c),
    decreases c.len(),
{
    if c.len() == 0 {
        assert(a + c =~= a);
        assert(pow256(0) == 1);
        assert(be_value(a) * 1 == be_value(a));
    } else {
        lemma_be_concat(a, c.drop_last());
        assert((a + c).drop_last() =~= a + c.drop_last());
        let x = be_value(a);
        let p = pow256((c.len() - 1) as nat);
        let y = be_value(c.drop_last());
        assert((x * p + y) * 256 == x * (256 * p) + y * 256) by (nonlinear_arith);
        assert((a + c).last() == c.last());
        assert(be_value(a + c) == be_value(a + c.drop_last()) * 256 + c.last() as nat);
        assert(pow256(c.len()) == 256 * p);
        assert(be_value(c) == y * 256 + c.last() as nat);
    }
}

/// The 128-bit number spelled by sixteen bytes of a word from `start` on.
fn be_half(b: &B256, start: usize) -> (r: u128)
    requires
        start == 0 || start == 16,
    ensures
        r as nat == be_value(b@.subrange(start as int, start as int + 16)),
{
    let mut acc: u128 = 0;
    let mut i: usize = 0;
    proof {
        reveal_with_fuel(pow256, 16);
        assert(pow256(15) * 256 == u128::MAX as nat + 1);
        assert(b@.subrange(start as int, start as int) =~= Seq::<u8>::empty());
    }
    while i < 16
        invariant
            start == 0 || start == 16,
            i <= 16,
            acc as nat == be_value(b@.subrange(start as int, start as int + i)),
            pow256(15) * 256 == u128::MAX as nat + 1,
        decreases 16 - i,
    {
        proof {
            lemma_be_bound(b@.subrange(start as int, start as int + i));
            lemma_pow_monotone(i as nat, 15);
            assert(b@.subrange(start as int, start as int + i + 1).drop_last() =~= b@.subrange(start as int, start as int + i));
        }
        acc = acc * 256 + b[start + i] as u128;
        i += 1;
    }
    acc
}

proof fn lemma_high_half_dominates(hi: u128)
    requires
        hi >= 1,
    ensures
        hi * two_128() >= two_128(),
{
    assert(hi * two_128() >= two_128()) by (nonlinear_arith)
        requires
            hi >= 1,
            two_128() > 0,
    ;
}

/// The word read as a big-endian number, split into its halves.
pub open spec fn u256_of_be(b: B256) -> U256 {
    U256 { hi: be_value(b@.subrange(0, 16)) as u128, lo: be_value(b@.subrange(16, 32)) as u128 }
}

impl U256 {
    /// The number held.
    pub open spec fn value(self) -> int {
        self.hi * two_128() + self.lo
    }

    pub fn zero() -> (r: U256)
        ensures
            r.value() == 0,
            r == (U256 { hi: 0, lo: 0 }),
    {
        U256 { hi: 0, lo: 0 }
    }

    pub fn from_u64(x: u64) -> (r: U256)
        ensures
            r.value() == x as int,
            r == (U256 { hi: 0, lo: x as u128 }),
    {
        U256 { hi: 0, lo: x as u128 }
    }

    pub fn from_u128(x: u128) -> (r: U256)
        ensures
            r.value() == x as int,
            r.hi == 0,
    {
        U256 { hi: 0, lo: x }
    }

    pub fn is_zero(&self) -> (r: bool)
        ensures
            r == (self.value() == 0),
    {
        if self.hi != 0 {
            proof {
                lemma_high_half_dominates(self.hi);
            }
        }
        self.hi == 0 && self.lo == 0
    }

    /// The number spelled by a big-endian word.
    pub fn from_be_bytes(b: &B256) -> (r: U256)
        ensures
            r.value() == be_value(b@),
            r == u256_of_be(*b),
    {
        let hi = be_half(b, 0);
        let lo = be_half(b, 16);
        proof {
            let s = b@;
            assert(s =~= s.subrange(0, 16) + s.subrange(16, 32));
            lemma_be_concat(s.subrange(0, 16), s.subrange(16, 32));
            reveal_with_fuel(pow256, 17);
            assert(pow256(16) == two_128());
        }
        U256 { hi, lo }
    }

    /// The number as a `u64`, or `u64::MAX` when it does not fit.
    pub fn saturating_to_u64(&self) -> (r: u64)
        ensures
            self.value() <= u64::MAX ==> r as int == self.value(),
            self.value() > u64::MAX ==> r == u64::MAX,
    {
        if self.hi != 0 {
            proof {
                lemma_high_half_dominates(self.hi);
            }
        }
        if self.hi == 0 && self.lo <= u64::MAX as u128 {
            self.lo as u64
        } else {
            u64::MAX
        }
    }
}

} // verus!
