//! The split of the 64-bit nonce space among the workers of one search.

use vstd::prelude::*;

verus! {

/// Number of nonces in the range that each of `threads` workers is given.
pub open spec fn range_width(threads: u64) -> int
    recommends
        threads >= 1,
{
    u64::MAX as int / threads as int
}

/// First nonce of worker `i`: `i` widths above zero, and never past the
/// largest nonce.
pub open spec fn range_start(threads: u64, i: u64) -> int
    recommends
        threads >= 1,
{
    let start = range_width(threads) * i;
    if start > u64::MAX {
        u64::MAX as int
    } else {
        start
    }
}

/// Whether `n` lies in the range that worker `i` is given: one width of
/// nonces from its first.
pub open spec fn in_range(threads: u64, i: u64, n: int) -> bool
    recommends
        threads >= 1,
{
    range_start(threads, i) <= n < range_start(threads, i) + range_width(threads)
}

/// The nonce at which worker `i` of `threads` starts to scan.
pub fn nonce_start(threads: u64, i: u64) -> (nonce: u64)
    requires
        threads >= 1,
    ensures
        nonce == range_start(threads, i),
{
    let width: u64 = u64::MAX / threads;
    match width.checked_mul(i) {
        Some(start) => start,
        None => u64::MAX,
    }
}

/// A worker of the search starts where its index says, without saturation:
/// for `i < threads` the product fits.
pub proof fn lemma_start_exact(threads: u64, i: u64)
    requires
        threads >= 1,
        i < threads,
    ensures
        range_start(threads, i) == range_width(threads) * i,
        range_start(threads, i) + range_width(threads) <= range_width(threads) * threads,
        range_width(threads) * threads <= u64::MAX,
{
    let w = range_width(threads);
    assert(w * threads <= u64::MAX) by (nonlinear_arith)
        requires
            w == u64::MAX as int / threads as int,
            threads >= 1,
    ;
    assert(w * i + w <= w * threads) by (nonlinear_arith)
        requires
            0 <= w,
            0 <= i < threads,
    ;
    assert(0 <= w * i) by (nonlinear_arith)
        requires
            0 <= w,
            0 <= i,
    ;
}

/// Every nonce below `threads` widths lies in the range of some worker.
pub proof fn lemma_ranges_cover(threads: u64, n: int)
    requires
        threads >= 1,
        0 <= n < range_width(threads) * threads,
    ensures
        exists|i: u64| i < threads && in_range(threads, i, n),
{
    let w = range_width(threads);
    assert(w > 0) by (nonlinear_arith)
        requires
            0 <= n < w * threads,
            threads >= 1,
    ;
    let q = n / w;
    assert(0 <= q < threads && w * q <= n < w * q + w) by (nonlinear_arith)
        requires
            q == n / w,
            w > 0,
            0 <= n < w * threads,
    ;
    let i = q as u64;
    lemma_start_exact(threads, i);
    assert(i < threads && in_range(threads, i, n));
}

/// No nonce lies in the ranges of two workers.
pub proof fn lemma_ranges_disjoint(threads: u64, i: u64, j: u64, n: int)
    requires
        threads >= 1,
        i < threads,
        j < threads,
        in_range(threads, i, n),
        in_range(threads, j, n),
    ensures
        i == j,
{
    let w = range_width(threads);
    lemma_start_exact(threads, i);
    lemma_start_exact(threads, j);
    if i < j {
        assert(w * i + w <= w * j) by (nonlinear_arith)
            requires
                0 <= w,
                i < j,
        ;
    } else if j < i {
        assert(w * j + w <= w * i) by (nonlinear_arith)
            requires
                0 <= w,
                j < i,
        ;
    }
}

/// The range of a worker lies below `threads` widths.
pub proof fn lemma_ranges_bounded(threads: u64, i: u64, n: int)
    requires
        threads >= 1,
        i < threads,
        in_range(threads, i, n),
    ensures
        0 <= n < range_width(threads) * threads,
{
    lemma_start_exact(threads, i);
}

/// The ranges of the workers split the nonces below `threads` widths: each
/// such nonce lies in the range of exactly one worker, and no other nonce
/// lies in any.
pub proof fn lemma_ranges_partition(threads: u64, n: int)
    requires
        threads >= 1,
    ensures
        (exists|i: u64| i < threads && in_range(threads, i, n)) <==> 0 <= n < range_width(threads)
            * threads,
        forall|i: u64, j: u64|
            i < threads && j < threads && in_range(threads, i, n) && in_range(threads, j, n) ==> i
                == j,
{
    if 0 <= n < range_width(threads) * threads {
        lemma_ranges_cover(threads, n);
    }
    assert forall|i: u64| i < threads && in_range(threads, i, n) implies 0 <= n < range_width(
        threads,
    ) * threads by {
        lemma_ranges_bounded(threads, i, n);
    }
    assert forall|i: u64, j: u64|
        i < threads && j < threads && in_range(threads, i, n) && in_range(
            threads,
            j,
            n,
        ) implies i == j by {
        lemma_ranges_disjoint(threads, i, j, n);
    }
}

} // verus!
