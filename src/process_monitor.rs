//! The process sampler and its static-info cache.

use crate::types::{ProcessData, ProcessInfo, ProcessStaticInfo, ProcessStatus, StaticInfoView};
use std::collections::HashMap;
use std::time::{Duration, SystemTime, SystemTimeError};
use vstd::prelude::*;

verus! {

broadcast use vstd::std_specs::hash::group_hash_axioms;

#[verifier::external_type_specification]
#[verifier::external_body]
pub struct ExSystemTime(SystemTime);

#[verifier::external_type_specification]
#[verifier::external_body]
pub struct ExSystemTimeError(SystemTimeError);

/// Relies on `std::time::SystemTime::now` for the current wall-clock time.
#[verifier::external_body]
fn wall_clock_now() -> SystemTime {
    SystemTime::now()
}

/// Relies on `std::time::SystemTime::duration_since` for the time elapsed
/// since the epoch; it fails when the clock reads before the epoch.
#[verifier::external_body]
fn since_epoch(t: &SystemTime) -> Result<Duration, SystemTimeError> {
    t.duration_since(std::time::UNIX_EPOCH)
}

/// Relies on `std::time::Duration::as_secs` for the whole seconds of a
/// duration.
#[verifier::external_body]
fn whole_seconds(d: &Duration) -> u64 {
    d.as_secs()
}

/// Seconds a process has been running at wall-clock time `now`, where a
/// start time of zero means "unknown".
pub open spec fn spec_run_time(start_time: u64, now: u64) -> u64 {
    if start_time > 0 && now >= start_time {
        (now - start_time) as u64
    } else {
        0
    }
}

/// Label shown for each process status.
pub open spec fn status_label(status: ProcessStatus) -> Seq<char> {
    match status {
        ProcessStatus::Running => "Running"@,
        ProcessStatus::Sleeping => "Sleeping"@,
        ProcessStatus::Idle => "Idle"@,
        ProcessStatus::Stopped => "Stopped"@,
        ProcessStatus::Zombie => "Zombie"@,
        ProcessStatus::Dead => "Dead"@,
        ProcessStatus::Unknown => "Unknown"@,
    }
}

/// The characters of each string of a sequence.
pub open spec fn string_views(s: Seq<String>) -> Seq<Seq<char>> {
    s.map_values(|w: String| w@)
}

/// Words joined by single spaces.
pub open spec fn join_words(words: Seq<Seq<char>>) -> Seq<char>
    decreases words.len(),
{
    if words.len() == 0 {
        Seq::empty()
    } else if words.len() == 1 {
        words[0]
    } else {
        join_words(words.drop_last()) + seq![' '] + words.last()
    }
}

/// Owner label of a process: its user identifier, or `-` when none is known.
pub open spec fn user_label(user_id: Option<String>) -> Seq<char> {
    match user_id {
        Some(u) => u@,
        None => "-"@,
    }
}

/// Static information captured from a process on its first sighting.
pub open spec fn fresh_static_info(data: ProcessData) -> StaticInfoView {
    StaticInfoView {
        name: data.name@,
        command: join_words(string_views(data.cmd@)),
        user: user_label(data.user_id),
    }
}

/// The cache after one sighting: an identifier seen before keeps its entry.
pub open spec fn absorb(cache: Map<u32, StaticInfoView>, data: ProcessData) -> Map<
    u32,
    StaticInfoView,
> {
    if cache.contains_key(data.pid) {
        cache
    } else {
        cache.insert(data.pid, fresh_static_info(data))
    }
}

/// The cache after a sequence of sightings, in order.
pub open spec fn absorb_all(cache: Map<u32, StaticInfoView>, seen: Seq<ProcessData>) -> Map<
    u32,
    StaticInfoView,
>
    decreases seen.len(),
{
    if seen.len() == 0 {
        cache
    } else {
        absorb(absorb_all(cache, seen.drop_last()), seen.last())
    }
}

/// `info` is the row built from `data` and the cached static information
/// `cached`, at wall-clock time `now`.
pub open spec fn is_record_of(
    info: ProcessInfo,
    data: ProcessData,
    cached: StaticInfoView,
    now: u64,
) -> bool {
    &&& info.pid == data.pid
    &&& info.ppid == match data.ppid {
        Some(p) => p,
        None => 0u32,
    }
    &&& info.name@ == cached.name
    &&& info.cpu_usage == data.cpu_usage
    &&& info.memory_usage == data.memory
    &&& info.status@ == status_label(data.status)
    &&& info.user@ == cached.user
    &&& info.command@ == cached.command
    &&& info.threads is None
    &&& info.environ == data.environ
    &&& info.root == data.root
    &&& info.virtual_memory == data.virtual_memory
    &&& info.start_time == data.start_time
    &&& info.run_time == spec_run_time(data.start_time, now)
    &&& info.disk_usage == (data.disk_read_bytes, data.disk_written_bytes)
    &&& info.session_id == data.session_id
}

/// Every row of `rows` is built from the process at the same position of
/// `processes`, with the static information that `cache` holds for it, at
/// wall-clock time `now`.
pub open spec fn records_at(
    rows: Seq<ProcessInfo>,
    processes: Seq<ProcessData>,
    cache: Map<u32, StaticInfoView>,
    now: u64,
) -> bool {
    &&& rows.len() == processes.len()
    &&& forall|i: int|
        0 <= i < rows.len() ==> is_record_of(
            #[trigger] rows[i],
            processes[i],
            cache[processes[i].pid],
            now,
        )
}

/// A message reporting that the wall clock could not be read.
pub open spec fn is_clock_error(message: Seq<char>) -> bool {
    exists|detail: Seq<char>| message == "Failed to get system time: "@ + detail
}

/// `rows` are the rows of `processes` at some wall-clock time.
pub open spec fn sampled_rows(
    rows: Seq<ProcessInfo>,
    processes: Seq<ProcessData>,
    cache: Map<u32, StaticInfoView>,
) -> bool {
    exists|now: u64| records_at(rows, processes, cache, now)
}

/// An identifier that neither the cache nor any sighting holds stays out
/// of the cache.
proof fn lemma_absorb_all_absent(cache: Map<u32, StaticInfoView>, seen: Seq<ProcessData>, pid: u32)
    requires
        !cache.contains_key(pid),
        forall|k: int| 0 <= k < seen.len() ==> (#[trigger] seen[k]).pid != pid,
    ensures
        !absorb_all(cache, seen).contains_key(pid),
    decreases seen.len(),
{
    if seen.len() > 0 {
        lemma_absorb_all_absent(cache, seen.drop_last(), pid);
        assert(seen.last() == seen[seen.len() - 1]);
    }
}

/// An entry of the cache survives any sequence of sightings unchanged.
pub proof fn lemma_cached_entry_kept(cache: Map<u32, StaticInfoView>, seen: Seq<ProcessData>, pid: u32)
    requires
        cache.contains_key(pid),
    ensures
        absorb_all(cache, seen).contains_key(pid),
        absorb_all(cache, seen)[pid] == cache[pid],
    decreases seen.len(),
{
    if seen.len() > 0 {
        lemma_cached_entry_kept(cache, seen.drop_last(), pid);
    }
}

/// An identifier missing from the cache gets the static information of its
/// first sighting.
pub proof fn lemma_first_sighting_cached(
    cache: Map<u32, StaticInfoView>,
    seen: Seq<ProcessData>,
    i: int,
)
    requires
        0 <= i < seen.len(),
        !cache.contains_key(seen[i].pid),
        forall|k: int| 0 <= k < i ==> (#[trigger] seen[k]).pid != seen[i].pid,
    ensures
        absorb_all(cache, seen).contains_key(seen[i].pid),
        absorb_all(cache, seen)[seen[i].pid] == fresh_static_info(seen[i]),
    decreases seen.len(),
{
    let pid = seen[i].pid;
    let prefix = seen.drop_last();
    if i == seen.len() - 1 {
        assert forall|k: int| 0 <= k < prefix.len() implies (#[trigger] prefix[k]).pid != pid by {
            assert(prefix[k] == seen[k]);
        }
        lemma_absorb_all_absent(cache, prefix, pid);
    } else {
        assert(prefix[i] == seen[i]);
        assert forall|k: int| 0 <= k < i implies (#[trigger] prefix[k]).pid != prefix[i].pid by {
            assert(prefix[k] == seen[k]);
        }
        lemma_first_sighting_cached(cache, prefix, i);
    }
}

/// First write wins: when a process identifier is seen in one sampling pass
/// and again in a later one, whatever name, command or owner the later
/// sighting carries, the cache (and so every row built from it) keeps the
/// name, command and owner of the first sighting.
pub proof fn lemma_first_write_wins(
    cache: Map<u32, StaticInfoView>,
    first: Seq<ProcessData>,
    second: Seq<ProcessData>,
    i: int,
    j: int,
)
    requires
        0 <= i < first.len(),
        0 <= j < second.len(),
        second[j].pid == first[i].pid,
        !cache.contains_key(first[i].pid),
        forall|k: int| 0 <= k < i ==> (#[trigger] first[k]).pid != first[i].pid,
    ensures
        absorb_all(absorb_all(cache, first), second)[second[j].pid] == fresh_static_info(first[i]),
{
    lemma_first_sighting_cached(cache, first, i);
    lemma_cached_entry_kept(absorb_all(cache, first), second, first[i].pid);
}

/// Run time of a process that started at `start_time` (seconds since the
/// epoch, zero when unknown), observed at `now`; never negative.
pub fn run_time(start_time: u64, now: u64) -> (r: u64)
    ensures
        r == spec_run_time(start_time, now),
        start_time == 0 ==> r == 0,
{
    if start_time > 0 {
        now.saturating_sub(start_time)
    } else {
        0
    }
}

/// Joins command-line arguments with single spaces.
pub fn join_command(cmd: &Vec<String>) -> (r: String)
    ensures
        r@ == join_words(string_views(cmd@)),
{
    let ghost words = string_views(cmd@);
    let mut out = String::new();
    let mut i: usize = 0;
    while i < cmd.len()
        invariant
            i <= cmd.len(),
            words == string_views(cmd@),
            out@ == join_words(words.take(i as int)),
        decreases cmd.len() - i,
    {
        proof {
            reveal_strlit(" ");
            assert(words.take(i + 1).drop_last() =~= words.take(i as int));
        }
        if i > 0 {
            out.append(" ");
        }
        out.append(cmd[i].as_str());
        i = i + 1;
    }
    assert(words.take(cmd.len() as int) =~= words);
    out
}

/// Captures the static information of a process seen for the first time.
fn static_info_of(data: &ProcessData) -> (r: ProcessStaticInfo)
    ensures
        r@ == fresh_static_info(*data),
{
    let user = match &data.user_id {
        Some(u) => u.clone(),
        None => String::from_str("-"),
    };
    ProcessStaticInfo { name: data.name.clone(), command: join_command(&data.cmd), user }
}

/// Monitors running processes, remembering the static information of each
/// process identifier from its first sighting on.
#[derive(Debug)]
pub struct ProcessMonitor {
    /// Static information per process identifier; entries are never replaced
    pub process_cache: HashMap<u32, ProcessStaticInfo>,
}

impl View for ProcessMonitor {
    type V = Map<u32, StaticInfoView>;

    open spec fn view(&self) -> Map<u32, StaticInfoView> {
        self.process_cache@.map_values(|v: ProcessStaticInfo| v@)
    }
}

impl ProcessMonitor {
    /// Creates a process monitor with an empty cache.
    pub fn new() -> (r: Self)
        ensures
            r@ == Map::<u32, StaticInfoView>::empty(),
            r.process_cache@.len() == 0,
    {
        let r = ProcessMonitor { process_cache: HashMap::new() };
        assert(r@ =~= Map::<u32, StaticInfoView>::empty());
        r
    }

    /// Returns the cached static information of `pid`; on the first sighting
    /// of `pid`, stores `fresh` and returns it.
    pub fn get_or_insert(&mut self, pid: u32, fresh: ProcessStaticInfo) -> (r: ProcessStaticInfo)
        ensures
            old(self)@.contains_key(pid) ==> final(self)@ == old(self)@ && r@ == old(self)@[pid],
            !old(self)@.contains_key(pid) ==> final(self)@ == old(self)@.insert(pid, fresh@)
                && r == fresh,
            final(self)@.contains_key(pid),
            final(self)@[pid] == r@,
    {
        match self.process_cache.get(&pid) {
            Some(info) => info.clone(),
            None => {
                let r = fresh.clone();
                self.process_cache.insert(pid, fresh);
                assert(self@ =~= old(self)@.insert(pid, fresh@));
                r
            },
        }
    }

    /// Builds the row of one process, going through the cache.
    fn build_process_info(&mut self, data: ProcessData, now: u64) -> (r: ProcessInfo)
        ensures
            final(self)@ == absorb(old(self)@, data),
            is_record_of(r, data, final(self)@[data.pid], now),
    {
        let cached = match self.process_cache.get(&data.pid) {
            Some(info) => info.clone(),
            None => {
                let fresh = static_info_of(&data);
                self.get_or_insert(data.pid, fresh)
            },
        };
        let status = Self::format_status(data.status);
        let ppid = match data.ppid {
            Some(p) => p,
            None => 0,
        };
        ProcessInfo {
            pid: data.pid,
            ppid,
            name: cached.name,
            cpu_usage: data.cpu_usage,
            memory_usage: data.memory,
            status,
            user: cached.user,
            command: cached.command,
            threads: None,
            environ: data.environ,
            root: data.root,
            virtual_memory: data.virtual_memory,
            start_time: data.start_time,
            run_time: run_time(data.start_time, now),
            disk_usage: (data.disk_read_bytes, data.disk_written_bytes),
            session_id: data.session_id,
        }
    }

    /// Turns the processes of one snapshot, observed at wall-clock time
    /// `now` (seconds since the epoch), into rows, in the same order.
    pub fn collect_processes_at(&mut self, processes: Vec<ProcessData>, now: u64) -> (r: Vec<
        ProcessInfo,
    >)
        ensures
            final(self)@ == absorb_all(old(self)@, processes@),
            records_at(r@, processes@, final(self)@, now),
    {
        let ghost ps = processes@;
        let mut out: Vec<ProcessInfo> = Vec::new();
        for data in it: processes.into_iter()
            invariant
                it.seq() == ps,
                out.len() == it.index(),
                self@ == absorb_all(old(self)@, ps.take(it.index() as int)),
                forall|k: int| 0 <= k < it.index() ==> self@.contains_key(#[trigger] ps[k].pid),
                forall|k: int|
                    0 <= k < it.index() ==> is_record_of(
                        #[trigger] out[k],
                        ps[k],
                        self@[ps[k].pid],
                        now,
                    ),
        {
            let ghost i = it.index() as int;
            proof {
                assert(ps.take(i + 1).drop_last() =~= ps.take(i));
            }
            let info = self.build_process_info(data, now);
            out.push(info);
        }
        assert(ps.take(ps.len() as int) =~= ps);
        out
    }

    /// Current wall-clock time in whole seconds since the epoch, or a message
    /// when the clock is unavailable or reads before the epoch.
    pub fn get_current_time() -> (r: Result<u64, String>)
        ensures
            r matches Err(m) ==> is_clock_error(m@),
    {
        let now = wall_clock_now();
        match since_epoch(&now) {
            Ok(elapsed) => Ok(whole_seconds(&elapsed)),
            Err(e) => {
                let mut msg = String::from_str("Failed to get system time: ");
                let detail = e.to_string();
                msg.append(detail.as_str());
                assert(msg@ == "Failed to get system time: "@ + detail@);
                Err(msg)
            },
        }
    }

    /// Turns the processes of one snapshot into rows, in the same order,
    /// reading the wall clock once; the cache is left as it was when the
    /// clock fails.
    pub fn collect_processes(&mut self, processes: Vec<ProcessData>) -> (r: Result<
        Vec<ProcessInfo>,
        String,
    >)
        ensures
            match r {
                Ok(rows) => final(self)@ == absorb_all(old(self)@, processes@) && sampled_rows(
                    rows@,
                    processes@,
                    final(self)@,
                ),
                Err(m) => final(self)@ == old(self)@ && is_clock_error(m@),
            },
    {
        match Self::get_current_time() {
            Ok(current_time) => {
                let ghost ps = processes@;
                let rows = self.collect_processes_at(processes, current_time);
                assert(records_at(rows@, ps, self@, current_time));
                Ok(rows)
            },
            Err(msg) => Err(msg),
        }
    }

    /// Label of a process status.
    pub fn format_status(status: ProcessStatus) -> (r: String)
        ensures
            r@ == status_label(status),
    {
        match status {
            ProcessStatus::Running => String::from_str("Running"),
            ProcessStatus::Sleeping => String::from_str("Sleeping"),
            ProcessStatus::Idle => String::from_str("Idle"),
            ProcessStatus::Stopped => String::from_str("Stopped"),
            ProcessStatus::Zombie => String::from_str("Zombie"),
            ProcessStatus::Dead => String::from_str("Dead"),
            ProcessStatus::Unknown => String::from_str("Unknown"),
        }
    }
}

} // verus!
