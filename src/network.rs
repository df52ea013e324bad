//! Network throughput from successive readings of cumulative counters.

use vstd::prelude::*;

verus! {

/// Cumulative byte counters of one network interface.
#[derive(Clone, Copy, Debug, PartialEq, Eq, Structural)]
pub struct NetworkCounters {
    /// Bytes received since the interface came up
    pub received: u64,
    /// Bytes transmitted since the interface came up
    pub transmitted: u64,
}

/// A reading of the summed counters, taken at a monotonic time in
/// milliseconds.
#[derive(Clone, Copy, Debug, PartialEq, Eq, Structural)]
pub struct NetworkSample {
    /// Monotonic time of the reading, in milliseconds
    pub at_ms: u64,
    /// Total bytes received over all interfaces
    pub received: u64,
    /// Total bytes transmitted over all interfaces
    pub transmitted: u64,
}

/// `x`, or `u64::MAX` where `x` is larger.
pub open spec fn clamp_u64(x: int) -> u64 {
    if x > u64::MAX {
        u64::MAX
    } else if x < 0 {
        0
    } else {
        x as u64
    }
}

/// Sum of the received counters.
pub open spec fn sum_received(s: Seq<NetworkCounters>) -> int
    decreases s.len(),
{
    if s.len() == 0 {
        0
    } else {
        sum_received(s.drop_last()) + s.last().received
    }
}

/// Sum of the transmitted counters.
pub open spec fn sum_transmitted(s: Seq<NetworkCounters>) -> int
    decreases s.len(),
{
    if s.len() == 0 {
        0
    } else {
        sum_transmitted(s.drop_last()) + s.last().transmitted
    }
}

/// Bytes per second between two readings of one counter, `elapsed_ms`
/// apart: zero when the counter went down or no time passed.
pub open spec fn rate(previous: u64, current: u64, elapsed_ms: u64) -> u64 {
    if current < previous || elapsed_ms == 0 {
        0
    } else {
        clamp_u64((current - previous) * 1000 / elapsed_ms as int)
    }
}

/// Milliseconds from `earlier` to `later`; zero if the clock went back.
pub open spec fn elapsed_ms(earlier: u64, later: u64) -> u64 {
    if later >= earlier {
        (later - earlier) as u64
    } else {
        0
    }
}

/// Rates (received, transmitted) reported for a reading of `received` and
/// `transmitted` bytes at `now_ms`, given the baseline `last`.
pub open spec fn observed_rates(
    last: Option<NetworkSample>,
    received: u64,
    transmitted: u64,
    now_ms: u64,
) -> (u64, u64) {
    match last {
        None => (0, 0),
        Some(p) => (
            rate(p.received, received, elapsed_ms(p.at_ms, now_ms)),
            rate(p.transmitted, transmitted, elapsed_ms(p.at_ms, now_ms)),
        ),
    }
}

/// Sums the counters of all interfaces, saturating at `u64::MAX`.
pub fn total_traffic(interfaces: &Vec<NetworkCounters>) -> (r: (u64, u64))
    ensures
        r.0 == clamp_u64(sum_received(interfaces@)),
        r.1 == clamp_u64(sum_transmitted(interfaces@)),
{
    let mut rx: u64 = 0;
    let mut tx: u64 = 0;
    let mut i: usize = 0;
    while i < interfaces.len()
        invariant
            i <= interfaces.len(),
            rx == clamp_u64(sum_received(interfaces@.take(i as int))),
            tx == clamp_u64(sum_transmitted(interfaces@.take(i as int))),
        decreases interfaces.len() - i,
    {
        proof {
            assert(interfaces@.take(i + 1).drop_last() =~= interfaces@.take(i as int));
            lemma_sums_nonnegative(interfaces@.take(i as int));
        }
        rx = rx.saturating_add(interfaces[i].received);
        tx = tx.saturating_add(interfaces[i].transmitted);
        i = i + 1;
    }
    assert(interfaces@.take(interfaces.len() as int) =~= interfaces@);
    (rx, tx)
}

proof fn lemma_sums_nonnegative(s: Seq<NetworkCounters>)
    ensures
        sum_received(s) >= 0,
        sum_transmitted(s) >= 0,
    decreases s.len(),
{
    if s.len() > 0 {
        lemma_sums_nonnegative(s.drop_last());
    }
}

/// Bytes per second between two readings of one counter.
fn per_second(previous: u64, current: u64, elapsed_ms: u64) -> (r: u64)
    ensures
        r == rate(previous, current, elapsed_ms),
{
    if current < previous || elapsed_ms == 0 {
        0
    } else {
        let scaled: u128 = (current - previous) as u128 * 1000;
        let per_sec: u128 = scaled / (elapsed_ms as u128);
        if per_sec > u64::MAX as u128 {
            u64::MAX
        } else {
            per_sec as u64
        }
    }
}

/// Keeps the previous reading of the network counters and derives
/// throughput from the next one.
#[derive(Debug)]
pub struct NetworkRateTracker {
    /// The most recent reading; `None` before the first one
    pub last: Option<NetworkSample>,
}

impl NetworkRateTracker {
    /// A tracker with no reading yet.
    pub fn new() -> (r: Self)
        ensures
            r.last is None,
    {
        NetworkRateTracker { last: None }
    }

    /// A tracker whose baseline is the given reading.
    pub fn seeded(received: u64, transmitted: u64, now_ms: u64) -> (r: Self)
        ensures
            r.last == Some(NetworkSample { at_ms: now_ms, received, transmitted }),
    {
        NetworkRateTracker { last: Some(NetworkSample { at_ms: now_ms, received, transmitted }) }
    }

    /// Reports the throughput (received, transmitted) in bytes per second
    /// since the baseline, and makes this reading the new baseline. With no
    /// baseline, or for a counter that went down, the rate is zero.
    pub fn observe(&mut self, received: u64, transmitted: u64, now_ms: u64) -> (r: (u64, u64))
        ensures
            r == observed_rates(old(self).last, received, transmitted, now_ms),
            final(self).last == Some(NetworkSample { at_ms: now_ms, received, transmitted }),
    {
        let rates = match self.last {
            None => (0, 0),
            Some(p) => {
                let elapsed = now_ms.saturating_sub(p.at_ms);
                (
                    per_second(p.received, received, elapsed),
                    per_second(p.transmitted, transmitted, elapsed),
                )
            },
        };
        self.last = Some(NetworkSample { at_ms: now_ms, received, transmitted });
        rates
    }
}

/// The first reading a tracker sees, with no baseline yet, reports a rate
/// of zero in both directions, whatever the counters and the time.
pub proof fn lemma_first_observation_is_zero(received: u64, transmitted: u64, now_ms: u64)
    ensures
        observed_rates(None, received, transmitted, now_ms) == (0u64, 0u64),
{
}

/// A counter that went down since the baseline (a reset, or a change of
/// interfaces) reports a rate of zero rather than a wrapped difference.
pub proof fn lemma_counter_reset_is_zero(
    last: NetworkSample,
    received: u64,
    transmitted: u64,
    now_ms: u64,
)
    ensures
        received < last.received ==> observed_rates(Some(last), received, transmitted, now_ms).0
            == 0,
        transmitted < last.transmitted ==> observed_rates(
            Some(last),
            received,
            transmitted,
            now_ms,
        ).1 == 0,
{
}

} // verus!
