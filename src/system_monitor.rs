//! The system stats sampler: CPU, memory, uptime, load, network and disks.

use crate::disks::{calculate_disk_stats, disk_totals, selected_disks, DiskEntry, VolumeSelection};
use crate::network::{
    clamp_u64, observed_rates, sum_received, sum_transmitted, total_traffic, NetworkCounters,
    NetworkRateTracker, NetworkSample,
};
use vstd::prelude::*;

verus! {

/// System-wide readings of one refresh of the operating-system snapshot.
#[derive(Debug)]
pub struct SystemReading {
    /// Load of each logical core in core order, as the bits of IEEE-754 `f32`s
    pub cpu_usage: Vec<u32>,
    /// Total physical memory in bytes
    pub memory_total: u64,
    /// Used physical memory in bytes
    pub memory_used: u64,
    /// System uptime in seconds
    pub uptime: u64,
    /// Load averages over 1, 5 and 15 minutes, as the bits of IEEE-754 `f64`s
    pub load_avg: [u64; 3],
    /// Cumulative counters of each network interface
    pub networks: Vec<NetworkCounters>,
    /// Mounted volumes
    pub disks: Vec<DiskEntry>,
    /// Monotonic time of the refresh, in milliseconds
    pub taken_at_ms: u64,
}

/// System-wide statistics handed to the presentation layer.
#[derive(Debug)]
pub struct SystemStats {
    /// Load of each logical core in core order, as the bits of IEEE-754 `f32`s
    pub cpu_usage: Vec<u32>,
    /// Total physical memory in bytes
    pub memory_total: u64,
    /// Used physical memory in bytes
    pub memory_used: u64,
    /// Free physical memory in bytes
    pub memory_free: u64,
    /// Cached memory in bytes
    pub memory_cached: u64,
    /// System uptime in seconds
    pub uptime: u64,
    /// Load averages over 1, 5 and 15 minutes, as the bits of IEEE-754 `f64`s
    pub load_avg: [u64; 3],
    /// Bytes received per second
    pub network_rx_bytes: u64,
    /// Bytes transmitted per second
    pub network_tx_bytes: u64,
    /// Total disk space in bytes
    pub disk_total_bytes: u64,
    /// Used disk space in bytes
    pub disk_used_bytes: u64,
    /// Free disk space in bytes
    pub disk_free_bytes: u64,
}

/// Free memory, approximated as total less used (not "available" memory).
pub open spec fn spec_memory_free(total: u64, used: u64) -> u64 {
    clamp_u64(total - used)
}

/// Cached memory as total less (used + free).
pub open spec fn spec_memory_cached(total: u64, used: u64) -> u64 {
    clamp_u64(total - (used + spec_memory_free(total, used)))
}

/// Free memory: total less used, zero where used exceeds total.
pub fn memory_free(total: u64, used: u64) -> (r: u64)
    ensures
        r == spec_memory_free(total, used),
{
    total.saturating_sub(used)
}

/// Cached memory: total less (used + free), zero where that sum exceeds
/// total.
pub fn memory_cached(total: u64, used: u64) -> (r: u64)
    ensures
        r == spec_memory_cached(total, used),
{
    let free = memory_free(total, used);
    let accounted: u128 = used as u128 + free as u128;
    if accounted >= total as u128 {
        0
    } else {
        (total as u128 - accounted) as u64
    }
}

/// With free memory taken as total less used, the cached figure is zero
/// whenever used memory does not exceed the total.
pub proof fn lemma_cached_memory_is_zero(total: u64, used: u64)
    requires
        used <= total,
    ensures
        spec_memory_cached(total, used) == 0,
{
}

/// `stats` is what a reading gives against the network baseline `last`.
pub open spec fn is_stats_of(
    stats: SystemStats,
    reading: SystemReading,
    last: Option<NetworkSample>,
    selection: VolumeSelection,
) -> bool {
    let rates = observed_rates(
        last,
        clamp_u64(sum_received(reading.networks@)),
        clamp_u64(sum_transmitted(reading.networks@)),
        reading.taken_at_ms,
    );
    let disks = disk_totals(selected_disks(reading.disks@, selection));
    &&& stats.cpu_usage == reading.cpu_usage
    &&& stats.memory_total == reading.memory_total
    &&& stats.memory_used == reading.memory_used
    &&& stats.memory_free == spec_memory_free(reading.memory_total, reading.memory_used)
    &&& stats.memory_cached == spec_memory_cached(reading.memory_total, reading.memory_used)
    &&& stats.uptime == reading.uptime
    &&& stats.load_avg == reading.load_avg
    &&& stats.network_rx_bytes == rates.0
    &&& stats.network_tx_bytes == rates.1
    &&& stats.disk_total_bytes == disks.0
    &&& stats.disk_used_bytes == disks.1
    &&& stats.disk_free_bytes == disks.2
}

/// Monitors system-wide statistics; keeps the network baseline between
/// samples.
#[derive(Debug)]
pub struct SystemMonitor {
    /// Network counters of the previous sample
    pub last_network_update: NetworkRateTracker,
    /// Which mounted volumes the disk figures count
    pub volume_selection: VolumeSelection,
}

impl SystemMonitor {
    /// Creates a monitor whose network baseline is the summed counters of
    /// `networks`, read at monotonic time `now_ms`.
    pub fn new(networks: &Vec<NetworkCounters>, now_ms: u64, volume_selection: VolumeSelection) -> (r:
        Self)
        ensures
            r.last_network_update.last == Some(
                NetworkSample {
                    at_ms: now_ms,
                    received: clamp_u64(sum_received(networks@)),
                    transmitted: clamp_u64(sum_transmitted(networks@)),
                },
            ),
            r.volume_selection == volume_selection,
    {
        let (initial_rx, initial_tx) = total_traffic(networks);
        SystemMonitor {
            last_network_update: NetworkRateTracker::seeded(initial_rx, initial_tx, now_ms),
            volume_selection,
        }
    }

    /// Network throughput (received, transmitted) in bytes per second since
    /// the previous sample; this reading becomes the new baseline.
    pub fn calculate_network_stats(&mut self, networks: &Vec<NetworkCounters>, now_ms: u64) -> (r:
        (u64, u64))
        ensures
            r == observed_rates(
                old(self).last_network_update.last,
                clamp_u64(sum_received(networks@)),
                clamp_u64(sum_transmitted(networks@)),
                now_ms,
            ),
            final(self).last_network_update.last == Some(
                NetworkSample {
                    at_ms: now_ms,
                    received: clamp_u64(sum_received(networks@)),
                    transmitted: clamp_u64(sum_transmitted(networks@)),
                },
            ),
            final(self).volume_selection == old(self).volume_selection,
    {
        let (current_rx, current_tx) = total_traffic(networks);
        self.last_network_update.observe(current_rx, current_tx, now_ms)
    }

    /// Statistics of one reading: CPU, memory, uptime and load as read,
    /// network throughput against the previous sample, disk totals over the
    /// selected volumes.
    pub fn collect_stats(&mut self, reading: SystemReading) -> (r: SystemStats)
        ensures
            is_stats_of(r, reading, old(self).last_network_update.last, old(self).volume_selection),
            final(self).last_network_update.last == Some(
                NetworkSample {
                    at_ms: reading.taken_at_ms,
                    received: clamp_u64(sum_received(reading.networks@)),
                    transmitted: clamp_u64(sum_transmitted(reading.networks@)),
                },
            ),
            final(self).volume_selection == old(self).volume_selection,
    {
        let (network_rx, network_tx) = self.calculate_network_stats(
            &reading.networks,
            reading.taken_at_ms,
        );
        let (disk_total, disk_used, disk_free) = calculate_disk_stats(
            &reading.disks,
            self.volume_selection,
        );
        SystemStats {
            memory_free: memory_free(reading.memory_total, reading.memory_used),
            memory_cached: memory_cached(reading.memory_total, reading.memory_used),
            cpu_usage: reading.cpu_usage,
            memory_total: reading.memory_total,
            memory_used: reading.memory_used,
            uptime: reading.uptime,
            load_avg: reading.load_avg,
            network_rx_bytes: network_rx,
            network_tx_bytes: network_tx,
            disk_total_bytes: disk_total,
            disk_used_bytes: disk_used,
            disk_free_bytes: disk_free,
        }
    }
}

} // verus!
