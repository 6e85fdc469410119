//! Daemon status: what the PID file, the process probe and the health check
//! together say about a running daemon.
//!
//! Reading the PID file, signalling the process and making the health request
//! are the caller's concern; the conclusion drawn from their outcomes is
//! here.

use vstd::prelude::*;

verus! {

/// What is known of the daemon.
#[derive(Clone, Debug)]
pub struct DaemonStatus {
    pub running: bool,
    pub pid: Option<u32>,
    pub url: String,
}

/// Whether the PID file is stale and should be removed: it names a process
/// that is gone, or one that no longer answers the health check.
pub fn pid_file_stale(pid: Option<u32>, process_running: bool, healthy: bool) -> (b: bool)
    ensures
        b == (pid is Some && !(process_running && healthy)),
{
    match pid {
        Some(_) => !(process_running && healthy),
        None => false,
    }
}

/// The daemon's status, from the PID file's content, whether that process is
/// alive, and whether the health endpoint answered: the daemon runs exactly
/// when the health check passed; the PID is reported when the file held one.
pub fn daemon_status(url: String, pid: Option<u32>, process_running: bool, healthy: bool) -> (r:
    DaemonStatus)
    ensures
        r.url@ == url@,
        r.pid == pid,
        r.running == healthy,
{
    DaemonStatus { running: healthy, pid, url }
}

} // verus!
