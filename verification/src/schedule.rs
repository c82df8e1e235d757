use vstd::prelude::*;

verus! {

/// One second in nanoseconds.
pub open spec fn one_second_nanos() -> u128 {
    1_000_000_000
}

/// The ids of the polls of the next round: `last + 1` up to `last + rps`.
pub fn round_attempt_ids(last: usize, rps: usize) -> (ids: Vec<usize>)
    requires
        last + rps <= usize::MAX,
    ensures
        ids@.len() == rps,
        forall|i: int| 0 <= i < rps ==> #[trigger] ids@[i] == last + 1 + i,
{
    let mut ids: Vec<usize> = Vec::new();
    let mut k: usize = 0;
    while k < rps
        invariant
            last + rps <= usize::MAX,
            k <= rps,
            ids@.len() == k,
            forall|i: int| 0 <= i < k ==> #[trigger] ids@[i] == last + 1 + i,
        decreases rps - k,
    {
        ids.push(last + 1 + k);
        k = k + 1;
    }
    ids
}

/// How long to wait after a round that took `elapsed_nanos`, so that rounds
/// start at most once a second; no wait once an order has been claimed or
/// when the round took a second or more.
pub fn pause_after_round(elapsed_nanos: u128, claimed: bool) -> (d: Option<u128>)
    ensures
        d == (if elapsed_nanos < one_second_nanos() && !claimed {
            Some((one_second_nanos() - elapsed_nanos) as u128)
        } else {
            None
        }),
        d matches Some(w) ==> w + elapsed_nanos == one_second_nanos(),
{
    if elapsed_nanos < 1_000_000_000 && !claimed {
        Some(1_000_000_000 - elapsed_nanos)
    } else {
        None
    }
}

} // verus!
