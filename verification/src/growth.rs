//! The capacity growth policy: when an append does not fit, the capacity
//! becomes the smallest power of two that holds twice the old capacity and
//! twice the appended batch.

use vstd::arithmetic::power2::*;
use vstd::prelude::*;

verus! {

/// The largest value whose next power of two still fits in a `u64`.
pub const MAX_POWER_OF_TWO: u64 = 0x8000_0000_0000_0000;

/// The largest capacity or batch size that can take part in a growth step:
/// twice this value is `MAX_POWER_OF_TWO`.
pub const MAX_GROWTH_INPUT: u64 = 0x4000_0000_0000_0000;

/// The smallest power of two that is at least `x`; it is 1 for 0 and 1.
pub open spec fn ceil_pow2(x: nat) -> nat
    decreases x,
{
    if x <= 1 {
        1
    } else {
        2 * ceil_pow2((x + 1) / 2)
    }
}

/// The larger of two counts.
pub open spec fn max_of(a: nat, b: nat) -> nat {
    if a >= b {
        a
    } else {
        b
    }
}

/// The capacity after a reallocating append of `count` elements to a vector
/// whose capacity was `capacity`.
pub open spec fn grown_capacity_spec(capacity: nat, count: nat) -> nat {
    ceil_pow2(max_of(2 * capacity, 2 * count))
}

/// `ceil_pow2(x)` is a power of two and is at least `x`.
pub proof fn lemma_ceil_pow2_is_pow2(x: nat)
    ensures
        is_pow2(ceil_pow2(x) as int),
        ceil_pow2(x) >= x,
        ceil_pow2(x) >= 1,
    decreases x,
{
    reveal(is_pow2);
    if x > 1 {
        lemma_ceil_pow2_is_pow2((x + 1) / 2);
        let c = ceil_pow2((x + 1) / 2) as int;
        assert((2 * c) % 2 == 0 && (2 * c) / 2 == c);
    }
}

/// No power of two lies between `x` and `ceil_pow2(x)`: every power of two
/// that is at least `x` is at least `ceil_pow2(x)`.
pub proof fn lemma_ceil_pow2_is_least(x: nat, q: int)
    requires
        is_pow2(q),
        q >= x,
    ensures
        ceil_pow2(x) <= q,
    decreases x,
{
    reveal(is_pow2);
    if x > 1 {
        assert(q % 2 == 0 && is_pow2(q / 2));
        lemma_ceil_pow2_is_least((x + 1) / 2, q / 2);
    }
}

/// Two different powers of two differ at least by a factor of two.
pub proof fn lemma_pow2_gap(q: int, p: int)
    requires
        is_pow2(q),
        is_pow2(p),
        q < p,
    ensures
        2 * q <= p,
    decreases p,
{
    reveal(is_pow2);
    if q > 1 {
        lemma_pow2_gap(q / 2, p / 2);
    }
}

/// `MAX_POWER_OF_TWO` is a power of two, so `ceil_pow2` of anything up to it
/// fits in a `u64`.
pub proof fn lemma_ceil_pow2_fits(x: nat)
    requires
        x <= MAX_POWER_OF_TWO,
    ensures
        ceil_pow2(x) <= MAX_POWER_OF_TWO,
{
    lemma2_to64_rest();
    lemma_pow2(63);
    assert(vstd::arithmetic::power::pow(2, 63) == MAX_POWER_OF_TWO as int);
    assert(is_pow2_exists(MAX_POWER_OF_TWO as int));
    is_pow2_equiv(MAX_POWER_OF_TWO as int);
    lemma_ceil_pow2_is_least(x, MAX_POWER_OF_TWO as int);
}

/// The smallest power of two that is at least `x`.
pub fn next_power_of_two(x: u64) -> (r: u64)
    requires
        x <= MAX_POWER_OF_TWO,
    ensures
        r == ceil_pow2(x as nat),
        is_pow2(r as int),
        r >= x,
        forall|q: int| is_pow2(q) && q >= x ==> r <= q,
{
    let mut p: u64 = 1;
    proof {
        reveal(is_pow2);
        lemma_ceil_pow2_is_pow2(x as nat);
        lemma_ceil_pow2_fits(x as nat);
    }
    while p < x
        invariant
            is_pow2(p as int),
            p <= ceil_pow2(x as nat),
            ceil_pow2(x as nat) <= MAX_POWER_OF_TWO,
            is_pow2(ceil_pow2(x as nat) as int),
            ceil_pow2(x as nat) >= x,
        decreases ceil_pow2(x as nat) - p,
    {
        proof {
            reveal(is_pow2);
            lemma_pow2_gap(p as int, ceil_pow2(x as nat) as int);
            assert((2 * p) % 2 == 0 && (2 * p) / 2 == p);
        }
        p = 2 * p;
    }
    proof {
        lemma_ceil_pow2_is_least(x as nat, p as int);
        assert forall|q: int| is_pow2(q) && q >= x implies p <= q by {
            lemma_ceil_pow2_is_least(x as nat, q);
        }
    }
    p
}

/// The capacity that a reallocating append of `count` elements gives a vector
/// whose capacity was `capacity`.
pub fn grown_capacity(capacity: u64, count: u64) -> (r: u64)
    requires
        capacity <= MAX_GROWTH_INPUT,
        count <= MAX_GROWTH_INPUT,
    ensures
        r == grown_capacity_spec(capacity as nat, count as nat),
{
    let doubled_capacity: u64 = capacity * 2;
    let doubled_count: u64 = count * 2;
    let wanted: u64 = if doubled_capacity >= doubled_count {
        doubled_capacity
    } else {
        doubled_count
    };
    next_power_of_two(wanted)
}

/// Within the limits of a growth step the grown capacity fits in a `u64`.
pub proof fn lemma_grown_capacity_fits(capacity: nat, count: nat)
    requires
        capacity <= MAX_GROWTH_INPUT,
        count <= MAX_GROWTH_INPUT,
    ensures
        grown_capacity_spec(capacity, count) <= MAX_POWER_OF_TWO,
{
    lemma_ceil_pow2_fits(max_of(2 * capacity, 2 * count));
}

/// When an append does not fit, the grown capacity is a power of two, holds
/// twice the old capacity and twice the batch, and has room for the old
/// elements together with the batch.
pub proof fn lemma_grown_capacity_bounds(capacity: nat, len: nat, count: nat)
    requires
        len <= capacity,
    ensures
        is_pow2(grown_capacity_spec(capacity, count) as int),
        grown_capacity_spec(capacity, count) >= 2 * capacity,
        grown_capacity_spec(capacity, count) >= 2 * count,
        grown_capacity_spec(capacity, count) >= len + count,
{
    lemma_ceil_pow2_is_pow2(max_of(2 * capacity, 2 * count));
}

} // verus!
