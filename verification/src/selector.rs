//! Weighted selection: which bucket of a cumulative distribution a draw falls into.

use vstd::prelude::*;
use vstd::set_lib::lemma_int_range;
use vstd::set_lib::set_int_range;

verus! {

/// The sum of the first `n` weights.
pub open spec fn prefix_sum(weights: Seq<u32>, n: int) -> int
    decreases n,
{
    if n <= 0 {
        0
    } else {
        prefix_sum(weights, n - 1) + weights[n - 1]
    }
}

/// The sum of all the weights.
pub open spec fn total_weight(weights: Seq<u32>) -> int {
    prefix_sum(weights, weights.len() as int)
}

/// Whether `draw` falls into bucket `i`: at least the weight before it, less
/// than the weight through it.
pub open spec fn in_bucket(weights: Seq<u32>, draw: int, i: int) -> bool {
    &&& 0 <= i < weights.len()
    &&& prefix_sum(weights, i) <= draw < prefix_sum(weights, i + 1)
}

/// The bucket that `draw` falls into, if there is one.
pub open spec fn bucket_of(weights: Seq<u32>, draw: int) -> Option<int> {
    if exists|i: int| in_bucket(weights, draw, i) {
        Some(choose|i: int| in_bucket(weights, draw, i))
    } else {
        None
    }
}

/// The cumulative weight never falls from one index to a later one.
pub proof fn lemma_prefix_sum_monotone(weights: Seq<u32>, i: int, j: int)
    requires
        0 <= i <= j <= weights.len(),
    ensures
        0 <= prefix_sum(weights, i) <= prefix_sum(weights, j),
    decreases j,
{
    if i < j {
        lemma_prefix_sum_monotone(weights, i, j - 1);
    } else if 0 < i {
        lemma_prefix_sum_monotone(weights, i - 1, i - 1);
    }
}

/// A draw falls into at most one bucket.
pub proof fn lemma_bucket_unique(weights: Seq<u32>, draw: int, i: int, j: int)
    requires
        in_bucket(weights, draw, i),
        in_bucket(weights, draw, j),
    ensures
        i == j,
{
    if i < j {
        lemma_prefix_sum_monotone(weights, i + 1, j);
    } else if j < i {
        lemma_prefix_sum_monotone(weights, j + 1, i);
    }
}

/// A draw below the sum of the first `n` weights falls into one of the first
/// `n` buckets.
pub proof fn lemma_bucket_exists(weights: Seq<u32>, draw: int, n: int)
    requires
        0 <= n <= weights.len(),
        0 <= draw < prefix_sum(weights, n),
    ensures
        bucket_of(weights, draw) is Some,
        0 <= bucket_of(weights, draw)->0 < n,
        in_bucket(weights, draw, bucket_of(weights, draw)->0),
    decreases n,
{
    if prefix_sum(weights, n - 1) <= draw {
        assert(in_bucket(weights, draw, n - 1));
        lemma_bucket_unique(weights, draw, n - 1, bucket_of(weights, draw)->0);
    } else {
        lemma_bucket_exists(weights, draw, n - 1);
    }
}

/// A draw that is negative, or at least the sum of all weights, falls into no bucket.
pub proof fn lemma_bucket_none(weights: Seq<u32>, draw: int)
    requires
        draw < 0 || total_weight(weights) <= draw,
    ensures
        bucket_of(weights, draw) is None,
{
    assert forall|i: int| !in_bucket(weights, draw, i) by {
        if 0 <= i < weights.len() {
            lemma_prefix_sum_monotone(weights, 0, i);
            lemma_prefix_sum_monotone(weights, i + 1, weights.len() as int);
        }
    }
}

/// The draws that fall into bucket `i`.
pub open spec fn draws_into(weights: Seq<u32>, i: int) -> Set<int> {
    Set::new(|draw: int| bucket_of(weights, draw) == Some(i))
}

/// A draw's bucket is `i` exactly when the draw lies between the cumulative
/// weight before `i` and the cumulative weight through `i`.
pub proof fn lemma_bucket_of_is_in_bucket(weights: Seq<u32>, draw: int, i: int)
    ensures
        bucket_of(weights, draw) == Some(i) <==> in_bucket(weights, draw, i),
{
    if in_bucket(weights, draw, i) {
        lemma_bucket_unique(weights, draw, i, bucket_of(weights, draw)->0);
    }
}

/// Bucket `i` receives exactly `weights[i]` draws: the draws that fall into
/// it are the integers from the cumulative weight before it up to, and not
/// including, the cumulative weight through it.
pub proof fn lemma_bucket_share(weights: Seq<u32>, i: int)
    requires
        0 <= i < weights.len(),
    ensures
        draws_into(weights, i) == set_int_range(
            prefix_sum(weights, i),
            prefix_sum(weights, i + 1),
        ),
        draws_into(weights, i).finite(),
        draws_into(weights, i).len() == weights[i],
{
    let range = set_int_range(prefix_sum(weights, i), prefix_sum(weights, i + 1));
    assert forall|draw: int| draws_into(weights, i).contains(draw) <==> range.contains(draw) by {
        lemma_bucket_of_is_in_bucket(weights, draw, i);
    }
    assert(draws_into(weights, i) =~= range);
    lemma_int_range(prefix_sum(weights, i), prefix_sum(weights, i + 1));
}

/// Picks an index by cumulative weight. The draw is `random_value` modulo
/// `draw_modulus`; the result is the first index at which the running sum of
/// the weights exceeds the draw, or `None` when the draw is not below the sum
/// of all the weights.
pub fn select(weights: &[u32], draw_modulus: u32, random_value: u32) -> (picked: Option<usize>)
    requires
        draw_modulus > 0,
    ensures
        bucket_of(weights@, (random_value % draw_modulus) as int) == match picked {
            Some(i) => Some(i as int),
            None => None::<int>,
        },
        picked matches Some(i) ==> in_bucket(weights@, (random_value % draw_modulus) as int, i as int),
        picked is None <==> total_weight(weights@) <= random_value % draw_modulus,
{
    let draw: u32 = random_value % draw_modulus;
    let mut cumulative: u64 = 0;
    let mut i: usize = 0;
    while i < weights.len()
        invariant
            i <= weights.len(),
            draw == random_value % draw_modulus,
            cumulative == prefix_sum(weights@, i as int),
            cumulative <= draw,
        decreases weights.len() - i,
    {
        cumulative = cumulative + weights[i] as u64;
        if (draw as u64) < cumulative {
            proof {
                assert(in_bucket(weights@, draw as int, i as int));
                lemma_prefix_sum_monotone(weights@, i + 1, weights@.len() as int);
                lemma_bucket_unique(
                    weights@,
                    draw as int,
                    i as int,
                    bucket_of(weights@, draw as int)->0,
                );
            }
            return Some(i);
        }
        i += 1;
    }
    proof {
        lemma_bucket_none(weights@, draw as int);
    }
    None
}

} // verus!
