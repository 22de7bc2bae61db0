//! How many page tasks may be active at once.

use vstd::prelude::*;

verus! {

/// The pool size that is used when the host's parallelism is unknown.
pub const DEFAULT_CONCURRENCY: usize = 4;

/// The largest pool size that is ever chosen for hosts with more than
/// sixteen cores.
pub const MAX_SCALED_CONCURRENCY: usize = 32;

/// The pool size for a host with `cores` units of parallelism.
///
/// Small hosts are oversubscribed, because a page task spends part of its
/// time blocked; mid-sized hosts get two extra slots; large hosts get one slot
/// per core; above sixteen cores the pool grows at three quarters of the core
/// count and stops at [`MAX_SCALED_CONCURRENCY`].
pub open spec fn max_concurrency_spec(cores: int) -> int {
    if 1 <= cores <= 4 {
        cores * 2
    } else if 5 <= cores <= 8 {
        cores + 2
    } else if 9 <= cores <= 16 {
        cores
    } else {
        let scaled = cores * 3 / 4;
        if scaled < MAX_SCALED_CONCURRENCY as int {
            scaled
        } else {
            MAX_SCALED_CONCURRENCY as int
        }
    }
}

/// The pool size when the host's parallelism was detected (`Some`) or not
/// (`None`).
pub open spec fn pool_size_spec(detected: Option<usize>) -> int {
    match detected {
        Some(cores) => max_concurrency_spec(cores as int),
        None => DEFAULT_CONCURRENCY as int,
    }
}

/// Every host with at least one core gets a pool of at least one slot and of
/// at most thirty-two.
pub proof fn lemma_max_concurrency_bounds(cores: int)
    requires
        cores >= 1,
    ensures
        1 <= max_concurrency_spec(cores) <= 32,
{
}

/// Computes [`max_concurrency_spec`].
pub fn max_concurrency(cores: usize) -> (slots: usize)
    ensures
        slots as int == max_concurrency_spec(cores as int),
{
    if 1 <= cores && cores <= 4 {
        cores * 2
    } else if 5 <= cores && cores <= 8 {
        cores + 2
    } else if 9 <= cores && cores <= 16 {
        cores
    } else if cores >= 43 {
        MAX_SCALED_CONCURRENCY
    } else {
        cores * 3 / 4
    }
}

/// The pool size for a run, from the parallelism that the caller detected.
///
/// The detection itself is the caller's: passing the value in keeps the
/// choice deterministic and lets a test fix it.
pub fn calc_max_concurrent_pages(detected: Option<usize>) -> (slots: usize)
    ensures
        slots as int == pool_size_spec(detected),
{
    match detected {
        Some(cores) => max_concurrency(cores),
        None => DEFAULT_CONCURRENCY,
    }
}

} // verus!
