//! The Tunnel Launcher's judgment.  Spawning the SSH client, draining
//! its diagnostic stream on a worker thread and waiting for its exit
//! happen outside the library; what came back — the captured text, a
//! channel timeout or a disconnected channel, and the exit status — is
//! judged here, and the multi-hop launch is driven as a state machine
//! whose steps are verified.

use vstd::prelude::*;
use crate::text::{contains_str, spec_contains, spec_trim, trim_str};

verus! {

/// What the bounded receive from the diagnostic channel yielded for one
/// SSH client spawn.
#[derive(Debug)]
pub enum LaunchEvent {
    /// The worker thread delivered the stderr text it captured.
    Received(String),
    /// Nothing arrived within the receive timeout: silence is success.
    TimedOut,
    /// The worker thread went away without sending.
    Disconnected,
}

/// The judgment on one SSH client spawn.
#[derive(Debug)]
pub enum LaunchVerdict {
    /// The spawn is taken as successful.
    Proceed,
    /// The client reported a failure signature, or exited unsuccessfully
    /// after reporting; the trimmed diagnostic text is surfaced verbatim.
    FailDiagnostic(String),
    /// The diagnostic channel was disconnected.
    FailDisconnected,
    /// Nothing was reported but the exit status was unsuccessful.
    FailStatus,
}

/// The stderr signatures that mark a failed SSH launch.
pub open spec fn failure_signature(t: Seq<char>) -> bool {
    spec_contains(t, "failed"@) || spec_contains(t, "Address already in use"@)
}

/// Exactly which verdict the simple dynamic-proxy launch reaches from an
/// event and an exit status.  A disconnected channel is ignored here, as
/// a timeout is: only the status then decides.
pub open spec fn spec_simple_verdict(ev: &LaunchEvent, status_ok: bool, v: &LaunchVerdict) -> bool {
    match ev {
        LaunchEvent::Received(e) => {
            if failure_signature(e@) || !status_ok {
                v matches LaunchVerdict::FailDiagnostic(d) && d@ == spec_trim(e@)
            } else {
                v is Proceed
            }
        },
        _ => {
            if status_ok {
                v is Proceed
            } else {
                v is FailStatus
            }
        },
    }
}

/// Judge one simple dynamic-proxy spawn.
pub fn simple_launch_verdict(ev: &LaunchEvent, status_ok: bool) -> (v: LaunchVerdict)
    ensures
        spec_simple_verdict(ev, status_ok, &v),
{
    match ev {
        LaunchEvent::Received(e) => {
            let text = e.as_str();
            if contains_str(text, "failed") || contains_str(text, "Address already in use")
                || !status_ok {
                LaunchVerdict::FailDiagnostic(String::from_str(trim_str(text)))
            } else {
                LaunchVerdict::Proceed
            }
        },
        _ => {
            if status_ok {
                LaunchVerdict::Proceed
            } else {
                LaunchVerdict::FailStatus
            }
        },
    }
}

/// Exactly which verdict each stage of a multi-hop launch reaches.  It
/// differs from the simple judgment in one point: a disconnected
/// diagnostic channel is itself a failure here, whatever the status.
pub open spec fn spec_multi_verdict(ev: &LaunchEvent, status_ok: bool, v: &LaunchVerdict) -> bool {
    match ev {
        LaunchEvent::Received(e) => {
            if failure_signature(e@) || !status_ok {
                v matches LaunchVerdict::FailDiagnostic(d) && d@ == spec_trim(e@)
            } else {
                v is Proceed
            }
        },
        LaunchEvent::Disconnected => v is FailDisconnected,
        LaunchEvent::TimedOut => {
            if status_ok {
                v is Proceed
            } else {
                v is FailStatus
            }
        },
    }
}

/// Judge one stage of a multi-hop launch.
pub fn multi_launch_verdict(ev: &LaunchEvent, status_ok: bool) -> (v: LaunchVerdict)
    ensures
        spec_multi_verdict(ev, status_ok, &v),
{
    match ev {
        LaunchEvent::Received(e) => {
            let text = e.as_str();
            if contains_str(text, "failed") || contains_str(text, "Address already in use")
                || !status_ok {
                LaunchVerdict::FailDiagnostic(String::from_str(trim_str(text)))
            } else {
                LaunchVerdict::Proceed
            }
        },
        LaunchEvent::Disconnected => LaunchVerdict::FailDisconnected,
        LaunchEvent::TimedOut => {
            if status_ok {
                LaunchVerdict::Proceed
            } else {
                LaunchVerdict::FailStatus
            }
        },
    }
}

/// Where a multi-hop launch stands.
#[derive(Debug, PartialEq, Eq, Structural, Clone, Copy)]
pub enum MultiHopPhase {
    /// Stage 1, the local TCP forward through the hop, is being judged.
    LocalForward,
    /// Stage 2, the dynamic proxy over the forward, is being judged.
    DynamicProxy,
    /// Both spawns succeeded; the prober's verdict is being awaited.
    Probing,
    /// The tunnel is up and probed healthy.
    Established,
    /// A stage failed; everything started so far has been rolled back.
    Failed,
}

/// What the driver must do after one step.
#[derive(Debug, PartialEq, Eq, Structural, Clone, Copy)]
pub enum MultiHopAction {
    /// Spawn the stage-2 dynamic proxy.
    SpawnDynamicProxy,
    /// Run the tunnel prober.
    RunProbe,
    /// Stop whatever was started for this address and surface the error.
    RollbackAndFail,
    /// Report overall success.
    ReportSuccess,
    /// Nothing: the launch has already concluded.
    Idle,
}

/// One step of the multi-hop launch: from the current phase and the
/// success of the awaited stage (or probe), the next phase and what to
/// do.  A failure in any stage moves to `Failed`, from which no further
/// spawn ever happens; stage 2 is spawned only after stage 1 succeeded.
pub open spec fn spec_hop_step(phase: MultiHopPhase, ok: bool) -> (MultiHopPhase, MultiHopAction) {
    match phase {
        MultiHopPhase::LocalForward => {
            if ok {
                (MultiHopPhase::DynamicProxy, MultiHopAction::SpawnDynamicProxy)
            } else {
                (MultiHopPhase::Failed, MultiHopAction::RollbackAndFail)
            }
        },
        MultiHopPhase::DynamicProxy => {
            if ok {
                (MultiHopPhase::Probing, MultiHopAction::RunProbe)
            } else {
                (MultiHopPhase::Failed, MultiHopAction::RollbackAndFail)
            }
        },
        MultiHopPhase::Probing => {
            if ok {
                (MultiHopPhase::Established, MultiHopAction::ReportSuccess)
            } else {
                (MultiHopPhase::Failed, MultiHopAction::RollbackAndFail)
            }
        },
        MultiHopPhase::Established => (MultiHopPhase::Established, MultiHopAction::Idle),
        MultiHopPhase::Failed => (MultiHopPhase::Failed, MultiHopAction::Idle),
    }
}

/// Advance the multi-hop launch by one judged outcome.
pub fn multi_hop_step(phase: MultiHopPhase, ok: bool) -> (r: (MultiHopPhase, MultiHopAction))
    ensures
        r == spec_hop_step(phase, ok),
{
    match phase {
        MultiHopPhase::LocalForward => {
            if ok {
                (MultiHopPhase::DynamicProxy, MultiHopAction::SpawnDynamicProxy)
            } else {
                (MultiHopPhase::Failed, MultiHopAction::RollbackAndFail)
            }
        },
        MultiHopPhase::DynamicProxy => {
            if ok {
                (MultiHopPhase::Probing, MultiHopAction::RunProbe)
            } else {
                (MultiHopPhase::Failed, MultiHopAction::RollbackAndFail)
            }
        },
        MultiHopPhase::Probing => {
            if ok {
                (MultiHopPhase::Established, MultiHopAction::ReportSuccess)
            } else {
                (MultiHopPhase::Failed, MultiHopAction::RollbackAndFail)
            }
        },
        MultiHopPhase::Established => (MultiHopPhase::Established, MultiHopAction::Idle),
        MultiHopPhase::Failed => (MultiHopPhase::Failed, MultiHopAction::Idle),
    }
}

/// How many times a run of the machine over the outcomes `evs` orders
/// the stage-2 dynamic proxy to be spawned.
pub open spec fn spec_hop_run_spawns(phase: MultiHopPhase, evs: Seq<bool>) -> int
    decreases evs.len(),
{
    if evs.len() == 0 {
        0
    } else {
        let next = spec_hop_step(phase, evs[0]);
        (if next.1 == MultiHopAction::SpawnDynamicProxy {
            1int
        } else {
            0int
        }) + spec_hop_run_spawns(next.0, evs.skip(1))
    }
}

proof fn lemma_hop_failed_no_spawns(evs: Seq<bool>)
    ensures
        spec_hop_run_spawns(MultiHopPhase::Failed, evs) == 0,
    decreases evs.len(),
{
    if evs.len() > 0 {
        lemma_hop_failed_no_spawns(evs.skip(1));
    }
}

/// If stage 1 of a multi-hop launch fails, the stage-2 dynamic proxy is
/// never spawned, whatever outcomes follow.
pub proof fn lemma_hop_stage1_failure_no_stage2(evs: Seq<bool>)
    requires
        evs.len() > 0,
        !evs[0],
    ensures
        spec_hop_run_spawns(MultiHopPhase::LocalForward, evs) == 0,
{
    lemma_hop_failed_no_spawns(evs.skip(1));
}

} // verus!
