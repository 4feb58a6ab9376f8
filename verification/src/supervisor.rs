//! The Lifecycle Supervisor's logic: the well-known PID-file and
//! log-file paths derived from a listen address, validation of PID-file
//! content, the decisions of the detached probe loop, and the abstract
//! model of what the verbs `start`, `stop` and `restart` do to the
//! supervised state.

use vstd::prelude::*;
use crate::inspector::{line_selected, spec_pids, InspectError};
use crate::num::{all_digits, digits_val, parse_i32, NumError};
use crate::text::{dash_for_colon, replace_colons};

verus! {

/// Root directory of the per-address PID files and log files.
pub open spec fn spec_run_dir() -> Seq<char> {
    "/var/run/sshp/"@
}

/// Path of the PID file for a listen address: the address with colons
/// replaced by dashes, under the run directory, with extension `.pid`.
pub fn get_pid_file(addr: &str) -> (r: String)
    ensures
        r@ == spec_run_dir() + dash_for_colon(addr@) + ".pid"@,
{
    let mut r = String::from_str("/var/run/sshp/");
    let name = replace_colons(addr);
    r.append(name.as_str());
    r.append(".pid");
    proof {
        assert(r@ =~= spec_run_dir() + dash_for_colon(addr@) + ".pid"@);
    }
    r
}

/// Path of the log file for a listen address, beside its PID file.
pub fn get_log_file(addr: &str) -> (r: String)
    ensures
        r@ == spec_run_dir() + dash_for_colon(addr@) + ".log"@,
{
    let mut r = String::from_str("/var/run/sshp/");
    let name = replace_colons(addr);
    r.append(name.as_str());
    r.append(".log");
    proof {
        assert(r@ =~= spec_run_dir() + dash_for_colon(addr@) + ".log"@);
    }
    r
}

/// The probe-loop process ID recorded for an address.  `content` is what
/// the PID file holds, or `None` when there is no file; no file means no
/// recorded probe, which is the ID 0, not an error.
pub fn get_probe_id(content: Option<&str>) -> (r: Result<i32, NumError>)
    ensures
        match r {
            Ok(v) => {
                match content {
                    None => v == 0,
                    Some(s) => all_digits(s@) && digits_val(s@) == v,
                }
            },
            Err(NumError::NotDecimal) => content matches Some(s) && !all_digits(s@),
            Err(NumError::TooLarge) => content matches Some(s) && all_digits(s@) && digits_val(s@)
                > i32::MAX,
        },
{
    match content {
        None => Ok(0),
        Some(s) => parse_i32(s),
    }
}

/// Which process a `stop`-like verb must terminate to end the recorded
/// probe loop: the PID-file content, when it names a process at all.  A
/// missing file or a recorded 0 means nothing to stop; unreadable
/// content is the one hard error.
pub fn stop_probe_process(content: Option<&str>) -> (r: Result<Option<i32>, NumError>)
    ensures
        match r {
            Ok(None) => {
                match content {
                    None => true,
                    Some(s) => all_digits(s@) && digits_val(s@) == 0,
                }
            },
            Ok(Some(pid)) => pid != 0 && (content matches Some(s) && all_digits(s@) && digits_val(
                s@,
            ) == pid),
            Err(NumError::NotDecimal) => content matches Some(s) && !all_digits(s@),
            Err(NumError::TooLarge) => content matches Some(s) && all_digits(s@) && digits_val(s@)
                > i32::MAX,
        },
{
    match get_probe_id(content) {
        Ok(pid) => {
            if pid != 0 {
                Ok(Some(pid))
            } else {
                Ok(None)
            }
        },
        Err(e) => Err(e),
    }
}

/// What a `stop` verb decided: which process IDs to terminate, and
/// whether anything matched at all.
#[derive(Debug)]
pub struct StopPlan {
    /// Every process ID the verb must terminate, in listing order.
    pub kill_pids: Vec<usize>,
    /// Whether any process was found; when false there is nothing to
    /// kill and the verb reports so, without error.
    pub found: bool,
}

/// State of the detached probe loop that keeps one tunnel alive.
#[derive(Debug, Clone, Copy)]
pub struct ProbeLoopState {
    /// Consecutive restart attempts that have failed.
    pub failed_times: usize,
    /// The configured ceiling: reaching it abandons the tunnel.
    pub ceiling: usize,
    /// The loop has given up; the process exits and never restarts again.
    pub abandoned: bool,
}

/// The loop never counts beyond its ceiling.
pub open spec fn probe_state_wf(s: ProbeLoopState) -> bool {
    s.failed_times <= s.ceiling
}

/// The pure transition the loop makes when a restart attempt concludes:
/// success resets the failure counter, failure increments it, and
/// reaching the ceiling abandons the loop.
pub open spec fn spec_record_restart(s: ProbeLoopState, ok: bool) -> ProbeLoopState {
    if ok {
        ProbeLoopState { failed_times: 0, ..s }
    } else {
        let bumped = if s.failed_times < s.ceiling {
            (s.failed_times + 1) as usize
        } else {
            s.failed_times
        };
        ProbeLoopState { failed_times: bumped, abandoned: s.abandoned || bumped >= s.ceiling, ..s }
    }
}

impl ProbeLoopState {
    /// A freshly forked probe loop: no failures yet, nothing abandoned.
    pub fn new(ceiling: usize) -> (s: Self)
        ensures
            s.failed_times == 0,
            s.ceiling == ceiling,
            !s.abandoned,
            probe_state_wf(s),
    {
        ProbeLoopState { failed_times: 0, ceiling, abandoned: false }
    }

    /// Whether this poll attempts a restart: only a loop that has not
    /// given up restarts, and only when the inspection succeeded and
    /// found no process for the address.
    pub fn wants_restart(&self, inspect_ok: bool, tunnel_alive: bool) -> (b: bool)
        ensures
            b == (!self.abandoned && inspect_ok && !tunnel_alive),
    {
        !self.abandoned && inspect_ok && !tunnel_alive
    }

    /// Record the outcome of one restart attempt.
    pub fn record_restart(&mut self, ok: bool)
        requires
            probe_state_wf(*old(self)),
        ensures
            *final(self) == spec_record_restart(*old(self), ok),
            probe_state_wf(*final(self)),
    {
        if ok {
            self.failed_times = 0;
        } else {
            if self.failed_times < self.ceiling {
                self.failed_times = self.failed_times + 1;
            }
            if self.failed_times >= self.ceiling {
                self.abandoned = true;
            }
        }
    }
}

/// Restart attempts the loop makes over `k` polls in the worst weather:
/// the tunnel is gone at every poll and every restart fails.
pub open spec fn spec_attempts_until_abandon(s: ProbeLoopState, k: int) -> int
    decreases k,
{
    if k <= 0 || s.abandoned {
        0
    } else {
        1 + spec_attempts_until_abandon(spec_record_restart(s, false), k - 1)
    }
}

/// A probe loop whose restarts keep failing attempts exactly as many
/// restarts as its ceiling still allows, and then abandons: however many
/// more polls follow, no further attempt is ever made.
pub proof fn lemma_probe_loop_abandons(s: ProbeLoopState, k: int)
    requires
        probe_state_wf(s),
        !s.abandoned,
        s.failed_times < s.ceiling,
        k >= s.ceiling - s.failed_times,
    ensures
        spec_attempts_until_abandon(s, k) == s.ceiling - s.failed_times,
    decreases k,
{
    let s2 = spec_record_restart(s, false);
    assert(spec_attempts_until_abandon(s, k) == 1 + spec_attempts_until_abandon(s2, k - 1));
    if s.failed_times + 1 < s.ceiling {
        lemma_probe_loop_abandons(s2, k - 1);
    } else {
        assert(s2.abandoned);
        assert(spec_attempts_until_abandon(s2, k - 1) == 0);
    }
}

/// Abstract state of everything the supervisor touches for one address:
/// the detached probe loop, the PID file recording it, the tunnel
/// processes matching the address, and the loop's failure counter.
#[derive(Debug, Clone, Copy)]
pub struct SupervisorModel {
    /// A detached probe loop is alive.
    pub probe_running: bool,
    /// What the PID file records, when one exists.
    pub pid_file: Option<u64>,
    /// Processes matching the address exist.
    pub tunnel_running: bool,
    /// The failure counter of the probe loop.
    pub failed_times: u64,
}

/// Ending the recorded probe loop: the loop is gone afterwards; the
/// stale file stays behind and is revalidated on the next read.
pub open spec fn spec_stop_probe(s: SupervisorModel) -> SupervisorModel {
    SupervisorModel { probe_running: false, ..s }
}

/// Terminating every process matching the address.
pub open spec fn spec_stop_tunnel(s: SupervisorModel) -> SupervisorModel {
    SupervisorModel { tunnel_running: false, ..s }
}

/// Starting: a fresh probe loop is forked and recorded, its counter is
/// fresh, and the tunnel comes up if the foreground launch succeeds —
/// alongside whatever was already listening.
pub open spec fn spec_start(s: SupervisorModel, probe_pid: u64, launch_ok: bool) -> SupervisorModel {
    SupervisorModel {
        probe_running: true,
        pid_file: Some(probe_pid),
        tunnel_running: s.tunnel_running || launch_ok,
        failed_times: 0,
    }
}

/// The `stop` verb: end the recorded probe loop, then the tunnel.
pub open spec fn spec_verb_stop(s: SupervisorModel) -> SupervisorModel {
    spec_stop_tunnel(spec_stop_probe(s))
}

/// The `start` verb: end the recorded probe loop, then start.
pub open spec fn spec_verb_start(s: SupervisorModel, probe_pid: u64, launch_ok: bool) -> SupervisorModel {
    spec_start(spec_stop_probe(s), probe_pid, launch_ok)
}

/// The `restart` verb: end the recorded probe loop, stop the tunnel,
/// then start.
pub open spec fn spec_verb_restart(s: SupervisorModel, probe_pid: u64, launch_ok: bool) -> SupervisorModel {
    spec_start(spec_stop_tunnel(spec_stop_probe(s)), probe_pid, launch_ok)
}

impl SupervisorModel {
    /// Run the `stop` verb against this state.
    pub fn verb_stop(self) -> (r: Self)
        ensures
            r == spec_verb_stop(self),
    {
        SupervisorModel { probe_running: false, tunnel_running: false, ..self }
    }

    /// Run the `start` verb against this state, with the probe PID the
    /// fork produced and the outcome of the foreground launch.
    pub fn verb_start(self, probe_pid: u64, launch_ok: bool) -> (r: Self)
        ensures
            r == spec_verb_start(self, probe_pid, launch_ok),
    {
        SupervisorModel {
            probe_running: true,
            pid_file: Some(probe_pid),
            tunnel_running: self.tunnel_running || launch_ok,
            failed_times: 0,
        }
    }

    /// Run the `restart` verb against this state.
    pub fn verb_restart(self, probe_pid: u64, launch_ok: bool) -> (r: Self)
        ensures
            r == spec_verb_restart(self, probe_pid, launch_ok),
    {
        SupervisorModel {
            probe_running: true,
            pid_file: Some(probe_pid),
            tunnel_running: launch_ok,
            failed_times: 0,
        }
    }
}

/// `restart` is observably the same as `stop` followed by `start`: from
/// any state, with the same forked probe PID and the same launch
/// outcome, both end in the same state — one PID file, one recorded
/// probe, a fresh failure counter, no residue leaking between the verbs.
pub proof fn lemma_restart_is_stop_then_start(s: SupervisorModel, probe_pid: u64, launch_ok: bool)
    ensures
        spec_verb_restart(s, probe_pid, launch_ok) == spec_verb_start(
            spec_verb_stop(s),
            probe_pid,
            launch_ok,
        ),
{
}

/// Stopping when no listing line matches the address finds nothing and
/// is no error: the inspector yields the empty ID list, so a second
/// `stop` sees exactly what the first one saw.
pub proof fn lemma_stop_on_empty(lines: Seq<Seq<char>>, addr: Seq<char>)
    requires
        forall|i: int| 0 <= i < lines.len() ==> !line_selected(#[trigger] lines[i], addr),
    ensures
        spec_pids(lines, addr) == Ok::<_, InspectError>(Seq::<int>::empty()),
    decreases lines.len(),
{
    if lines.len() > 0 {
        let tail = lines.skip(1);
        assert(!line_selected(lines[0], addr));
        assert forall|i: int| 0 <= i < tail.len() implies !line_selected(
            #[trigger] tail[i],
            addr,
        ) by {
            assert(tail[i] == lines[i + 1]);
        }
        lemma_stop_on_empty(tail, addr);
    }
}

} // verus!
