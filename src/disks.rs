//! Selection of the mounted volumes that count, and their totals.

use crate::network::clamp_u64;
use vstd::prelude::*;

verus! {

/// Capacity of one mounted volume.
#[derive(Debug)]
pub struct DiskEntry {
    /// Where the volume is mounted
    pub mount_point: String,
    /// Capacity in bytes
    pub total_space: u64,
    /// Bytes still available
    pub available_space: u64,
}

impl Clone for DiskEntry {
    fn clone(&self) -> (r: Self)
        ensures
            r == *self,
    {
        DiskEntry {
            mount_point: self.mount_point.clone(),
            total_space: self.total_space,
            available_space: self.available_space,
        }
    }
}

/// Which mounted volumes are counted.
#[derive(Clone, Copy, Debug, PartialEq, Eq, Structural)]
pub enum VolumeSelection {
    /// Only the volume mounted at `/` (POSIX-like systems, where bind mounts
    /// and network shares would otherwise be counted twice)
    RootOnly,
    /// Every enumerated volume (systems without a single root)
    All,
}

/// Whether `disk` is counted under `selection`.
pub open spec fn is_selected(disk: DiskEntry, selection: VolumeSelection) -> bool {
    match selection {
        VolumeSelection::RootOnly => disk.mount_point@ == "/"@,
        VolumeSelection::All => true,
    }
}

/// The volumes counted under `selection`, in their order.
pub open spec fn selected_disks(disks: Seq<DiskEntry>, selection: VolumeSelection) -> Seq<
    DiskEntry,
>
    decreases disks.len(),
{
    if disks.len() == 0 {
        Seq::empty()
    } else if is_selected(disks.last(), selection) {
        selected_disks(disks.drop_last(), selection).push(disks.last())
    } else {
        selected_disks(disks.drop_last(), selection)
    }
}

/// Bytes in use on one volume.
pub open spec fn used_space(disk: DiskEntry) -> int {
    if disk.available_space <= disk.total_space {
        disk.total_space - disk.available_space
    } else {
        0
    }
}

/// Sum of the capacities.
pub open spec fn sum_total(disks: Seq<DiskEntry>) -> int
    decreases disks.len(),
{
    if disks.len() == 0 {
        0
    } else {
        sum_total(disks.drop_last()) + disks.last().total_space
    }
}

/// Sum of the bytes in use.
pub open spec fn sum_used(disks: Seq<DiskEntry>) -> int
    decreases disks.len(),
{
    if disks.len() == 0 {
        0
    } else {
        sum_used(disks.drop_last()) + used_space(disks.last())
    }
}

/// Sum of the bytes available.
pub open spec fn sum_available(disks: Seq<DiskEntry>) -> int
    decreases disks.len(),
{
    if disks.len() == 0 {
        0
    } else {
        sum_available(disks.drop_last()) + disks.last().available_space
    }
}

/// Totals (capacity, used, free) of `disks`, each saturating at `u64::MAX`.
pub open spec fn disk_totals(disks: Seq<DiskEntry>) -> (u64, u64, u64) {
    (clamp_u64(sum_total(disks)), clamp_u64(sum_used(disks)), clamp_u64(sum_available(disks)))
}

proof fn lemma_disk_sums_nonnegative(disks: Seq<DiskEntry>)
    ensures
        sum_total(disks) >= 0,
        sum_used(disks) >= 0,
        sum_available(disks) >= 0,
    decreases disks.len(),
{
    if disks.len() > 0 {
        lemma_disk_sums_nonnegative(disks.drop_last());
    }
}

/// The volumes of `disks` that count under `selection`, in their order.
pub fn filter_disks(disks: &Vec<DiskEntry>, selection: VolumeSelection) -> (r: Vec<DiskEntry>)
    ensures
        r@ == selected_disks(disks@, selection),
{
    let root = String::from_str("/");
    let mut out: Vec<DiskEntry> = Vec::new();
    let mut i: usize = 0;
    while i < disks.len()
        invariant
            i <= disks.len(),
            root@ == "/"@,
            out@ == selected_disks(disks@.take(i as int), selection),
        decreases disks.len() - i,
    {
        proof {
            assert(disks@.take(i + 1).drop_last() =~= disks@.take(i as int));
        }
        let keep = match selection {
            VolumeSelection::RootOnly => disks[i].mount_point == root,
            VolumeSelection::All => true,
        };
        if keep {
            out.push(disks[i].clone());
        }
        i = i + 1;
    }
    assert(disks@.take(disks.len() as int) =~= disks@);
    out
}

/// Capacity, used and free bytes summed over `disks`, where a volume uses
/// its capacity less what is available; each sum saturates at `u64::MAX`.
pub fn sum_disk_space(disks: &Vec<DiskEntry>) -> (r: (u64, u64, u64))
    ensures
        r == disk_totals(disks@),
{
    let mut total: u64 = 0;
    let mut used: u64 = 0;
    let mut free: u64 = 0;
    let mut i: usize = 0;
    while i < disks.len()
        invariant
            i <= disks.len(),
            (total, used, free) == disk_totals(disks@.take(i as int)),
        decreases disks.len() - i,
    {
        proof {
            assert(disks@.take(i + 1).drop_last() =~= disks@.take(i as int));
            lemma_disk_sums_nonnegative(disks@.take(i as int));
        }
        let d = &disks[i];
        total = total.saturating_add(d.total_space);
        used = used.saturating_add(d.total_space.saturating_sub(d.available_space));
        free = free.saturating_add(d.available_space);
        i = i + 1;
    }
    assert(disks@.take(disks.len() as int) =~= disks@);
    (total, used, free)
}

/// Totals (capacity, used, free) over the volumes that count under
/// `selection`.
pub fn calculate_disk_stats(disks: &Vec<DiskEntry>, selection: VolumeSelection) -> (r: (
    u64,
    u64,
    u64,
))
    ensures
        r == disk_totals(selected_disks(disks@, selection)),
{
    let selected = filter_disks(disks, selection);
    sum_disk_space(&selected)
}

/// Aggregation over an empty set of selected volumes gives zero capacity,
/// zero used and zero free bytes.
pub proof fn lemma_no_volume_totals_zero(disks: Seq<DiskEntry>, selection: VolumeSelection)
    requires
        selected_disks(disks, selection).len() == 0,
    ensures
        disk_totals(selected_disks(disks, selection)) == (0u64, 0u64, 0u64),
{
}

} // verus!
