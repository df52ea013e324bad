use neohtop::{
    join_command, run_time, ProcessData, ProcessMonitor, ProcessStaticInfo, ProcessStatus,
};
use sysinfo::{PidExt, ProcessExt, SystemExt};

fn sample_process(pid: u32, name: &str, cmd: &[&str], user: Option<&str>) -> ProcessData {
    ProcessData {
        pid,
        name: name.to_string(),
        cmd: cmd.iter().map(|s| s.to_string()).collect(),
        user_id: user.map(|u| u.to_string()),
        cpu_usage: 12.5f32.to_bits(),
        memory: 4096,
        status: ProcessStatus::Running,
        ppid: Some(1),
        environ: vec!["HOME=/root".to_string()],
        root: "/".to_string(),
        virtual_memory: 8192,
        start_time: 1_000,
        disk_read_bytes: 10,
        disk_written_bytes: 20,
        session_id: Some(7),
    }
}

#[test]
fn test_process_monitor_creation() {
    let monitor = ProcessMonitor::new();
    assert!(monitor.process_cache.is_empty());
}

#[test]
fn test_process_collection() {
    let mut monitor = ProcessMonitor::new();
    let mut sys = sysinfo::System::new();
    sys.refresh_all();

    let processes: Vec<ProcessData> = sys
        .processes()
        .iter()
        .map(|(pid, process)| ProcessData {
            pid: pid.as_u32(),
            name: process.name().to_string(),
            cmd: process.cmd().to_vec(),
            user_id: process.user_id().map(|uid| uid.to_string()),
            cpu_usage: process.cpu_usage().to_bits(),
            memory: process.memory(),
            status: ProcessStatus::Unknown,
            ppid: process.parent().map(|p| p.as_u32()),
            environ: process.environ().to_vec(),
            root: process.root().to_string_lossy().into_owned(),
            virtual_memory: process.virtual_memory(),
            start_time: process.start_time(),
            disk_read_bytes: process.disk_usage().read_bytes,
            disk_written_bytes: process.disk_usage().written_bytes,
            session_id: process.session_id().map(|id| id.as_u32()),
        })
        .collect();

    let result = monitor.collect_processes(processes);
    assert!(result.is_ok());
}

#[test]
fn first_sighting_wins_over_later_name_change() {
    let mut monitor = ProcessMonitor::new();
    let first = monitor.collect_processes_at(
        vec![sample_process(42, "worker", &["worker", "--fast"], Some("1000"))],
        2_000,
    );
    assert_eq!(first[0].name, "worker");

    let second = monitor.collect_processes_at(
        vec![sample_process(42, "renamed", &["renamed", "--slow"], Some("0"))],
        2_005,
    );
    assert_eq!(second.len(), 1);
    assert_eq!(second[0].name, "worker");
    assert_eq!(second[0].command, "worker --fast");
    assert_eq!(second[0].user, "1000");
    assert_eq!(second[0].run_time, 1_005);
}

#[test]
fn get_or_insert_stores_values_of_first_call() {
    let mut monitor = ProcessMonitor::new();
    let fresh = ProcessStaticInfo {
        name: "bash".to_string(),
        command: "bash -l".to_string(),
        user: "501".to_string(),
    };
    let got = monitor.get_or_insert(9, fresh);
    assert_eq!(got.name, "bash");
    assert_eq!(got.command, "bash -l");
    assert_eq!(got.user, "501");
    assert_eq!(monitor.process_cache.len(), 1);
    assert_eq!(monitor.process_cache[&9].name, "bash");

    let other = ProcessStaticInfo {
        name: "zsh".to_string(),
        command: "zsh".to_string(),
        user: "0".to_string(),
    };
    let again = monitor.get_or_insert(9, other);
    assert_eq!(again.name, "bash");
    assert_eq!(again.command, "bash -l");
    assert_eq!(again.user, "501");
    assert_eq!(monitor.process_cache.len(), 1);
}

#[test]
fn run_time_of_unknown_start_is_zero() {
    assert_eq!(run_time(0, 0), 0);
    assert_eq!(run_time(0, 1_700_000_000), 0);
    assert_eq!(run_time(0, u64::MAX), 0);
}

#[test]
fn run_time_counts_seconds_since_start() {
    let now = 1_700_000_000u64;
    assert_eq!(run_time(now - 100, now), 100);
    assert_eq!(run_time(now, now), 0);
}

#[test]
fn run_time_of_start_in_future_is_zero() {
    assert_eq!(run_time(500, 400), 0);
}

#[test]
fn status_labels() {
    assert_eq!(ProcessMonitor::format_status(ProcessStatus::Running), "Running");
    assert_eq!(ProcessMonitor::format_status(ProcessStatus::Sleeping), "Sleeping");
    assert_eq!(ProcessMonitor::format_status(ProcessStatus::Idle), "Idle");
    assert_eq!(ProcessMonitor::format_status(ProcessStatus::Stopped), "Stopped");
    assert_eq!(ProcessMonitor::format_status(ProcessStatus::Zombie), "Zombie");
    assert_eq!(ProcessMonitor::format_status(ProcessStatus::Dead), "Dead");
    assert_eq!(ProcessMonitor::format_status(ProcessStatus::Unknown), "Unknown");
}

#[test]
fn command_is_arguments_joined_by_spaces() {
    let cmd = vec!["python3".to_string(), "-m".to_string(), "http.server".to_string()];
    assert_eq!(join_command(&cmd), "python3 -m http.server");
    assert_eq!(join_command(&vec!["init".to_string()]), "init");
    assert_eq!(join_command(&Vec::new()), "");
}

#[test]
fn row_fields_come_from_the_snapshot() {
    let mut monitor = ProcessMonitor::new();
    let mut orphan = sample_process(3, "kthreadd", &[], None);
    orphan.ppid = None;
    orphan.start_time = 0;
    orphan.status = ProcessStatus::Zombie;
    let rows = monitor.collect_processes_at(
        vec![sample_process(5, "sshd", &["/usr/sbin/sshd", "-D"], Some("0")), orphan],
        1_500,
    );
    assert_eq!(rows.len(), 2);

    let sshd = &rows[0];
    assert_eq!(sshd.pid, 5);
    assert_eq!(sshd.ppid, 1);
    assert_eq!(sshd.name, "sshd");
    assert_eq!(sshd.command, "/usr/sbin/sshd -D");
    assert_eq!(sshd.user, "0");
    assert_eq!(sshd.status, "Running");
    assert_eq!(f32::from_bits(sshd.cpu_usage), 12.5f32);
    assert_eq!(sshd.memory_usage, 4096);
    assert_eq!(sshd.virtual_memory, 8192);
    assert_eq!(sshd.threads, None);
    assert_eq!(sshd.environ, vec!["HOME=/root".to_string()]);
    assert_eq!(sshd.root, "/");
    assert_eq!(sshd.start_time, 1_000);
    assert_eq!(sshd.run_time, 500);
    assert_eq!(sshd.disk_usage, (10, 20));
    assert_eq!(sshd.session_id, Some(7));

    let kthreadd = &rows[1];
    assert_eq!(kthreadd.pid, 3);
    assert_eq!(kthreadd.ppid, 0);
    assert_eq!(kthreadd.user, "-");
    assert_eq!(kthreadd.command, "");
    assert_eq!(kthreadd.status, "Zombie");
    assert_eq!(kthreadd.run_time, 0);
}

#[test]
fn current_time_is_after_epoch() {
    let now = ProcessMonitor::get_current_time().unwrap();
    assert!(now > 1_500_000_000);
}

#[test]
fn collect_processes_keeps_order_and_fills_cache() {
    let mut monitor = ProcessMonitor::new();
    let rows = monitor
        .collect_processes(vec![
            sample_process(11, "a", &["a"], None),
            sample_process(12, "b", &["b", "x"], Some("2")),
        ])
        .unwrap();
    assert_eq!(rows.len(), 2);
    assert_eq!(rows[0].pid, 11);
    assert_eq!(rows[1].pid, 12);
    assert_eq!(rows[1].command, "b x");
    assert_eq!(monitor.process_cache.len(), 2);
    assert_eq!(monitor.process_cache[&11].user, "-");
}
