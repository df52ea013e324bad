//! Plain-value data model of one sampling pass and of its results.

use vstd::prelude::*;

verus! {

/// Coarse lifecycle state of a process; platform states outside this set
/// are reported as `Unknown`.
#[derive(Clone, Copy, Debug, PartialEq, Eq, Structural)]
pub enum ProcessStatus {
    Running,
    Sleeping,
    Idle,
    Stopped,
    Zombie,
    Dead,
    Unknown,
}

/// Static information about a process that does not change during its
/// lifetime; kept in the cache under the process identifier.
#[derive(Debug)]
pub struct ProcessStaticInfo {
    /// Process name
    pub name: String,
    /// Full command string, the arguments joined by single spaces
    pub command: String,
    /// Label of the process owner
    pub user: String,
}

/// Mathematical value of a [`ProcessStaticInfo`].
pub struct StaticInfoView {
    pub name: Seq<char>,
    pub command: Seq<char>,
    pub user: Seq<char>,
}

impl View for ProcessStaticInfo {
    type V = StaticInfoView;

    open spec fn view(&self) -> StaticInfoView {
        StaticInfoView { name: self.name@, command: self.command@, user: self.user@ }
    }
}

impl Clone for ProcessStaticInfo {
    fn clone(&self) -> (r: Self)
        ensures
            r == *self,
    {
        ProcessStaticInfo {
            name: self.name.clone(),
            command: self.command.clone(),
            user: self.user.clone(),
        }
    }
}

/// One process as read from the operating-system snapshot.
#[derive(Debug)]
pub struct ProcessData {
    /// Process ID
    pub pid: u32,
    /// Name of the process
    pub name: String,
    /// Command line arguments
    pub cmd: Vec<String>,
    /// Identifier of the owning user, when the platform reports one
    pub user_id: Option<String>,
    /// CPU usage as reported, carried as the bits of an IEEE-754 `f32`
    pub cpu_usage: u32,
    /// Physical memory usage in bytes
    pub memory: u64,
    /// Current process status
    pub status: ProcessStatus,
    /// Parent process ID
    pub ppid: Option<u32>,
    /// Environment variables
    pub environ: Vec<String>,
    /// Root directory of the process
    pub root: String,
    /// Virtual memory usage in bytes
    pub virtual_memory: u64,
    /// Start time in seconds since the epoch; zero when unknown
    pub start_time: u64,
    /// Bytes read from disk
    pub disk_read_bytes: u64,
    /// Bytes written to disk
    pub disk_written_bytes: u64,
    /// Session ID of the process
    pub session_id: Option<u32>,
}

/// One row of the process table handed to the presentation layer.
#[derive(Debug)]
pub struct ProcessInfo {
    /// Process ID
    pub pid: u32,
    /// Parent process ID, zero when there is none
    pub ppid: u32,
    /// Process name (from the cache)
    pub name: String,
    /// CPU usage as reported, carried as the bits of an IEEE-754 `f32`
    pub cpu_usage: u32,
    /// Physical memory usage in bytes
    pub memory_usage: u64,
    /// Process status label
    pub status: String,
    /// Label of the process owner (from the cache)
    pub user: String,
    /// Full command string (from the cache)
    pub command: String,
    /// Number of threads, when a platform probe supplies it
    pub threads: Option<u32>,
    /// Environment variables
    pub environ: Vec<String>,
    /// Root directory of the process
    pub root: String,
    /// Virtual memory usage in bytes
    pub virtual_memory: u64,
    /// Start time in seconds since the epoch; zero when unknown
    pub start_time: u64,
    /// Seconds the process has been running
    pub run_time: u64,
    /// Disk I/O statistics (read bytes, written bytes)
    pub disk_usage: (u64, u64),
    /// Session ID of the process
    pub session_id: Option<u32>,
}

} // verus!
