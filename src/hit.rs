//! Choosing which object a ray hits first.
//!
//! Each object reports the distance along the ray at which it is hit, as the
//! bit pattern of an IEEE-754 binary64 number, or reports no hit. Only
//! distances that are normal numbers with a clear sign bit count: zero,
//! subnormals, infinities, NaNs and negative values are ignored. On those
//! numbers the IEEE total order is the order of their bit patterns read as
//! unsigned integers, so the nearest hit is the smallest pattern.
use vstd::prelude::*;

verus! {

/// The sign bit of a binary64 pattern.
pub open spec fn sign_field(bits: u64) -> u64 {
    bits >> 63u64
}

/// The eleven exponent bits of a binary64 pattern.
pub open spec fn exponent_field(bits: u64) -> u64 {
    (bits >> 52u64) & 0x7ffu64
}

/// The pattern is a positive normal number: finite, not NaN, above zero and
/// not subnormal.
pub open spec fn is_hit_distance(bits: u64) -> bool {
    sign_field(bits) == 0 && exponent_field(bits) != 0 && exponent_field(bits) != 0x7ff
}

/// The key under which `f64::total_cmp` orders binary64 patterns: the
/// pattern as a signed integer, with the magnitude bits flipped when the sign
/// bit is set.
pub open spec fn total_order_key(bits: u64) -> i64 {
    let signed = bits as i64;
    signed ^ ((((signed >> 63u64) as u64) >> 1u64) as i64)
}

/// On distances that count, the total order is the order of the patterns as
/// unsigned integers.
pub proof fn lemma_total_order_on_hits(a: u64, b: u64)
    requires
        is_hit_distance(a),
        is_hit_distance(b),
    ensures
        (total_order_key(a) < total_order_key(b)) == (a < b),
        (total_order_key(a) == total_order_key(b)) == (a == b),
{
    assert((a >> 63u64) == 0 && (b >> 63u64) == 0 ==> {
        &&& ((a as i64) ^ (((((a as i64) >> 63u64) as u64) >> 1u64) as i64)) == a as i64
        &&& ((b as i64) ^ (((((b as i64) >> 63u64) as u64) >> 1u64) as i64)) == b as i64
        &&& ((a as i64) < (b as i64)) == (a < b)
        &&& ((a as i64) == (b as i64)) == (a == b)
    }) by (bit_vector);
}

/// Entry `i` is a distance that counts.
pub open spec fn counts(distances: Seq<Option<u64>>, i: int) -> bool {
    distances[i] is Some && is_hit_distance(distances[i]->0)
}

/// Whether a reported distance counts as a hit.
pub fn hit_distance(bits: u64) -> (r: bool)
    ensures
        r == is_hit_distance(bits),
{
    let exponent = (bits >> 52u64) & 0x7ffu64;
    (bits >> 63u64) == 0 && exponent != 0 && exponent != 0x7ff
}

/// The index of the nearest hit among the reported distances: the least, in
/// the total order of binary64, of the distances that count, the first one
/// where several are equal; `None` when none counts.
pub fn closest_hit(distances: &Vec<Option<u64>>) -> (r: Option<usize>)
    ensures
        r is None <==> forall|i: int| 0 <= i < distances@.len() ==> !counts(distances@, i),
        r matches Some(k) ==> {
            &&& k < distances@.len()
            &&& counts(distances@, k as int)
            &&& forall|i: int|
                0 <= i < distances@.len() && counts(distances@, i) ==> total_order_key(
                    distances@[k as int]->0,
                ) <= total_order_key(#[trigger] distances@[i]->0)
            &&& forall|i: int|
                0 <= i < k && counts(distances@, i) ==> total_order_key(distances@[k as int]->0)
                    < total_order_key(#[trigger] distances@[i]->0)
        },
{
    let mut best: Option<usize> = None;
    let mut best_bits: u64 = 0;
    let mut i: usize = 0;
    while i < distances.len()
        invariant
            i <= distances@.len(),
            best is None <==> forall|j: int| 0 <= j < i ==> !counts(distances@, j),
            best matches Some(k) ==> {
                &&& k < i
                &&& counts(distances@, k as int)
                &&& distances@[k as int]->0 == best_bits
                &&& forall|j: int| 0 <= j < i && counts(distances@, j) ==> best_bits <= distances@[j]->0
                &&& forall|j: int| 0 <= j < k && counts(distances@, j) ==> best_bits < distances@[j]->0
            },
        decreases distances@.len() - i,
    {
        match distances[i] {
            Some(bits) => {
                if hit_distance(bits) {
                    match best {
                        None => {
                            best = Some(i);
                            best_bits = bits;
                        },
                        Some(_) => {
                            if bits < best_bits {
                                best = Some(i);
                                best_bits = bits;
                            }
                        },
                    }
                }
            },
            None => {},
        }
        proof {
            if let Some(k) = best {
                assert(counts(distances@, k as int));
            }
        }
        i = i + 1;
    }
    proof {
        if let Some(k) = best {
            assert forall|j: int| 0 <= j < distances@.len() && counts(distances@, j) implies total_order_key(
                distances@[k as int]->0,
            ) <= total_order_key(#[trigger] distances@[j]->0) by {
                lemma_total_order_on_hits(best_bits, distances@[j]->0);
            }
            assert forall|j: int| 0 <= j < k && counts(distances@, j) implies total_order_key(
                distances@[k as int]->0,
            ) < total_order_key(#[trigger] distances@[j]->0) by {
                lemma_total_order_on_hits(best_bits, distances@[j]->0);
            }
        }
    }
    best
}

} // verus!
