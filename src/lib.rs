//! Sampling and aggregation engine for a process and system monitor.
//!
//! The library turns readings taken from the operating system into a
//! process table (merged with a first-write-wins cache of slow-changing
//! metadata) and into system-wide figures, among them network throughput
//! derived from two successive counter readings.

mod disks;
mod network;
mod process_monitor;
mod system_monitor;
mod types;

pub use disks::{
    calculate_disk_stats, disk_totals, filter_disks, is_selected, lemma_no_volume_totals_zero,
    selected_disks, sum_available, sum_disk_space, sum_total, sum_used, used_space, DiskEntry,
    VolumeSelection,
};
pub use network::{
    clamp_u64, elapsed_ms, lemma_counter_reset_is_zero, lemma_first_observation_is_zero,
    observed_rates, rate, sum_received, sum_transmitted, total_traffic, NetworkCounters,
    NetworkRateTracker, NetworkSample,
};
pub use process_monitor::{
    absorb, absorb_all, fresh_static_info, is_clock_error, is_record_of, join_command, join_words,
    lemma_cached_entry_kept, lemma_first_sighting_cached, lemma_first_write_wins, records_at,
    run_time, sampled_rows, spec_run_time, status_label, string_views, user_label,
    ProcessMonitor,
};
pub use system_monitor::{
    is_stats_of, lemma_cached_memory_is_zero, memory_cached, memory_free, spec_memory_cached,
    spec_memory_free, SystemMonitor, SystemReading, SystemStats,
};
pub use types::{ProcessData, ProcessInfo, ProcessStaticInfo, ProcessStatus, StaticInfoView};
